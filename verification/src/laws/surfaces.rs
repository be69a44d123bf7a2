//! The local surfaces, the configuration, and what goes over the wire: who may ask for what, what
//! the environment sets, how a message is posted, and how a worker asks.
use crate::a2a_client;
use crate::address;
use crate::broker_channel::{BrokerRequest, ChannelAnswer, ChannelStepView, LineReadView};
use crate::broker_channel;
use crate::config::EnvironmentView;
use crate::config;
use crate::control::{ControlOp, Surface};
use crate::control;
use crate::control_dispatch;
use crate::laws::texts;
use crate::numerals;
use crate::outside::UrlPartsView;
use crate::outside;
use crate::request::ControlRequest;
use crate::request;
use crate::store::StoreView;
use crate::text;
use vstd::prelude::*;
use vstd::utf8::*;

verus! {

/// Which surface reaches which operation: the operator's reaches all, that of a worker five, that
/// of a driver eight, and neither of these two what the other does.
pub proof fn surfaces_reach_their_own(surface: Surface, op: ControlOp)
    ensures
        control::dominates(surface, op.needs()) <==> match surface {
            Surface::Admin => true,
            Surface::Worker => op == ControlOp::SubmitTaskInput || op == ControlOp::ReportProgress || op
                == ControlOp::SubmitResult || op == ControlOp::ReferenceEvidence || op
                == ControlOp::RequestProcessorCall,
            Surface::Coord => op == ControlOp::CoordWhoAmI || op == ControlOp::CoordPeerShow || op
                == ControlOp::CoordStage || op == ControlOp::CoordStageShow || op
                == ControlOp::CoordDispatch || op == ControlOp::CoordTaskStatus || op
                == ControlOp::CoordEventsRead || op == ControlOp::CoordCapabilityEvidence,
        },
        control::surface_refusal(surface).status == 403,
        control::surface_refusal(surface).type_ == "urn:akson:error:forbidden-surface"@,
        control::surface_refusal(surface).detail == Some(
            match surface {
                Surface::Worker => "the worker surface cannot perform this operation"@,
                Surface::Coord => "the coordination surface cannot perform this operation"@,
                Surface::Admin => "operation not permitted"@,
            },
        ),
{
}

/// A request is authorized as the operation that it is.
pub proof fn a_request_is_authorized_as_what_it_is(request: ControlRequest)
    ensures
        ({
            let op = request::op_of(request);
            &&& op == ControlOp::ApproveContract <==> request is TaskApprove || request is TaskDeny
            &&& op == ControlOp::Policy <==> request is PeerAutoApprove
            &&& op == ControlOp::SendTask <==> request is TaskSend
            &&& op == ControlOp::DeliverResult <==> request is TaskDeliver
            &&& op == ControlOp::RunWorker <==> request is TaskRun
            &&& op == ControlOp::FulfillTask <==> request is TaskFulfill
            &&& op == ControlOp::SubmitResult <==> request is SubmitResult
            &&& op == ControlOp::RequestProcessorCall <==> request is RequestProcessorCall
            &&& op == ControlOp::Processor <==> request is ProcessorAdd || request is ProcessorList
                || request is ProcessorCredential
            &&& op == ControlOp::StageConsent <==> request is StageConsent
            &&& op == ControlOp::CoordDispatch <==> request is Dispatch
            &&& op == ControlOp::CoordStage <==> request is Stage
            &&& op == ControlOp::CoordStageShow <==> request is StageShow
            &&& op == ControlOp::CoordPeerShow <==> request is PeerShow
            &&& op == ControlOp::CoordWhoAmI <==> request is CoordWhoAmI
            &&& op == ControlOp::CoordEventsRead <==> request is EventsRead
            &&& op == ControlOp::CoordTaskStatus <==> request is TaskStatus
            &&& op == ControlOp::CoordCapabilityEvidence <==> request is CapabilityEvidence
            &&& op == ControlOp::IssueWorkOrder <==> request is IssueWorkOrder
            &&& op == ControlOp::Diagnose <==> request is Diagnose
            &&& op == ControlOp::Inspect <==> request is WhoAmI
            &&& op == ControlOp::TaskInspect <==> request is TaskInbox || request is TaskShow
                || request is TaskSent || request is TaskOutcomes || request is TaskOutput
            &&& op == ControlOp::Pair <==> request is PeerList || request is Token || request is PeerAdd
                || request is PeerLabel || request is PeerImportRemove || request is PeerKnocks
                || request is PeerPing
            &&& request::is_coordination(request) <==> control::dominates(Surface::Coord, op.needs())
                || request is StageConsent
        }),
{
}

/// The operator reads of a task the terms that its head names, and its revision; what is not
/// there is a 404.
pub proof fn a_task_is_shown_with_its_terms(v: StoreView, task_id: Seq<char>)
    ensures
        ({
            let r = control_dispatch::card_of_task(v, task_id);
            let head = v.heads[task_id];
            let row = v.contracts[head.digest];
            let there = v.heads.contains_key(task_id) && v.contracts.contains_key(head.digest);
            &&& r is Ok <==> there && row.contract is Some
            &&& (r matches Ok(card) ==> card.task_id == task_id && card.revision == head.revision
                && row.contract == Some(card.terms))
            &&& !there ==> (r matches Err(p) && p.status == 404 && p.type_ == "urn:akson:error:"@
                + "no-such-task"@)
            &&& there && row.contract is None ==> (r matches Err(p) && p.status == 500)
        }),
{
}

/// What the environment sets is taken as it is set; what it leaves open has its default.
pub proof fn the_environment_is_taken_as_it_is(env: EnvironmentView)
    ensures
        ({
            let c = config::config_of(env);
            let given = |o: Option<Seq<char>>| o is Some && o->0.len() > 0;
            &&& given(env.data_dir) ==> c.data_dir == env.data_dir->0
            &&& given(env.issuer) ==> c.local_performer.issuer == env.issuer->0
            &&& !given(env.issuer) ==> c.local_performer.issuer == "local"@
            &&& given(env.agent) ==> c.local_performer.agent == env.agent->0
            &&& !given(env.agent) ==> c.local_performer.agent == "akson-local"@
            &&& c.local_performer.root.len() == 0
            &&& given(env.interface_url) ==> c.interface_url == env.interface_url->0
            &&& given(env.worker_cmd) ==> c.worker_command == env.worker_cmd
            &&& !given(env.worker_cmd) ==> c.worker_command is None
            &&& given(env.on_task) ==> c.on_task == env.on_task
            &&& !given(env.on_task) ==> c.on_task is None
            &&& !given(env.worker_exec) ==> c.worker_exec is None
            &&& (c.worker_exec matches Some(words) ==> given(env.worker_exec) && words == text::words(
                env.worker_exec->0,
            ) && words.len() > 0)
            &&& !given(env.receive_addr) ==> c.receive_addr == Some("127.0.0.1:18443"@)
            &&& given(env.receive_addr) && text::lowered(env.receive_addr->0) != "off"@ && text::lowered(
                env.receive_addr->0,
            ) != "none"@ ==> c.receive_addr == env.receive_addr
            &&& given(env.receive_addr) && (text::lowered(env.receive_addr->0) == "off"@ || text::lowered(
                env.receive_addr->0,
            ) == "none"@) ==> c.receive_addr is None
        }),
{
    reveal_strlit("off");
    reveal_strlit("none");
    assert(text::lowered("off"@) =~= "off"@);
    assert(text::lowered("none"@) =~= "none"@);
}

/// The data is below the first of these that is set: its own setting, the directory for data, the
/// home, the directory for temporary files.
pub proof fn the_data_is_below_what_is_set(env: EnvironmentView)
    ensures
        ({
            let dir = config::config_of(env).data_dir;
            let given = |o: Option<Seq<char>>| o is Some && o->0.len() > 0;
            &&& !given(env.data_dir) && given(env.xdg_data_home) && env.xdg_data_home->0.last() != '/'
                ==> dir == env.xdg_data_home->0 + "/"@ + "akson"@
            &&& !given(env.data_dir) && !given(env.xdg_data_home) && given(env.home)
                && env.home->0.last() != '/' ==> dir == env.home->0 + "/"@ + ".local/share/akson"@
            &&& !given(env.data_dir) && !given(env.xdg_data_home) && !given(env.home)
                && env.temp_dir.len() > 0 && env.temp_dir.last() != '/' ==> dir == env.temp_dir + "/"@
                + "akson-data"@
        }),
{
}

/// The address that is advertised is the one that is listened on, as an https URL, where it does
/// not stand for all addresses.
pub proof fn what_is_listened_on_is_advertised(addr: Seq<char>)
    requires
        !text::holds_text(addr, "0.0.0.0"@),
        !text::holds_text(addr, "[::]"@),
    ensures
        config::advertised(Some(addr)) == "https://"@ + addr + "/a2a"@,
{
    reveal_strlit("0.0.0.0");
    reveal_strlit("[::]");
    lemma_nothing_to_replace(addr, "0.0.0.0"@, "127.0.0.1"@);
    lemma_nothing_to_replace(addr, "[::]"@, "[::1]"@);
}

proof fn lemma_nothing_to_replace(s: Seq<char>, part: Seq<char>, with: Seq<char>)
    requires
        part.len() > 0,
        !text::holds_text(s, part),
    ensures
        text::replaced(s, part, with) == s,
    decreases s.len(),
{
    if s.len() >= part.len() {
        assert(!text::stands_at(s, part, 0));
        let rest = s.skip(1);
        if text::holds_text(rest, part) {
            let at = choose|at: int| #[trigger] text::stands_at(rest, part, at);
            assert(rest.subrange(at, at + part.len()) =~= s.subrange(at + 1, at + 1 + part.len()));
            assert(text::stands_at(s, part, at + 1));
        }
        lemma_nothing_to_replace(rest, part, with);
        assert(seq![s[0]] + rest =~= s);
    }
}

/// A text in place of another stands where that stood, and all around it stays.
pub proof fn a_text_is_replaced_where_it_stands(
    before: Seq<char>,
    part: Seq<char>,
    with: Seq<char>,
    after: Seq<char>,
)
    requires
        part.len() > 0,
        !text::holds_text(after, part),
        forall|i: int| 0 <= i < before.len() ==> !#[trigger] text::stands_at(before + part + after, part, i),
    ensures
        text::replaced(before + part + after, part, with) == before + with + after,
    decreases before.len(),
{
    let whole = before + part + after;
    if before.len() == 0 {
        assert(whole.subrange(0, part.len() as int) =~= part);
        assert(text::stands_at(whole, part, 0));
        assert(whole.skip(part.len() as int) =~= after);
        lemma_nothing_to_replace(after, part, with);
        assert(before + with + after =~= with + after);
    } else {
        assert(!text::stands_at(whole, part, 0));
        let rest = before.skip(1);
        assert(whole.skip(1) =~= rest + part + after);
        assert forall|i: int| 0 <= i < rest.len() implies !#[trigger] text::stands_at(
            rest + part + after,
            part,
            i,
        ) by {
            assert(!text::stands_at(whole, part, i + 1));
            if text::stands_at(rest + part + after, part, i) {
                assert(whole.subrange(i + 1, i + 1 + part.len()) =~= (rest + part + after).subrange(
                    i,
                    i + part.len(),
                ));
            }
        }
        a_text_is_replaced_where_it_stands(rest, part, with, after);
        assert(seq![whole[0]] + (rest + with + after) =~= before + with + after);
    }
}

/// An endpoint is usable exactly where it is https and has a host; its port is the one given or
/// 443, and its path the one given or a slash.
pub proof fn an_endpoint_is_an_https_url(url: UrlPartsView)
    ensures
        ({
            let r = address::endpoint_parts(url);
            &&& r is Some <==> url.scheme == "https"@ && url.host is Some
            &&& (r matches Some((host, port, path)) ==> url.host == Some(host) && (url.port is Some
                ==> url.port == Some(port)) && (url.port is None ==> port == 443) && (url.path.len()
                > 0 ==> path == url.path) && (url.path.len() == 0 ==> path == "/"@))
        }),
{
}

/// A label is 1 to 64 small letters, digits and single hyphens, none of them at an end.
pub proof fn a_label_is_short_and_plain(s: Seq<char>, i: int)
    requires
        0 <= i < s.len(),
    ensures
        address::is_label(s) ==> 1 <= s.len() <= 64 && (('a' <= s[i] && s[i] <= 'z') || ('0' <= s[i]
            && s[i] <= '9') || s[i] == '-') && (s[i] == '-' ==> 0 < i < s.len() - 1 && s[i - 1] != '-'
            && s[i + 1] != '-'),
        s.len() <= 64 && (forall|j: int| 0 <= j < s.len() ==> 'a' <= (#[trigger] s[j]) <= 'z')
            ==> address::is_label(s),
{
    if address::is_label(s) {
        assert(address::is_label_char(s[i]));
        if s[i] == '-' {
            assert(i > 0 && i < s.len() - 1);
            assert(!(s[i + 1] == '-' && s[i + 1 - 1] == '-'));
        }
    }
    if s.len() <= 64 && (forall|j: int| 0 <= j < s.len() ==> 'a' <= (#[trigger] s[j]) <= 'z') {
        assert('a' <= s[0] <= 'z');
        assert('a' <= s[s.len() - 1] <= 'z');
        assert forall|j: int| 0 < j < s.len() implies !((#[trigger] s[j]) == '-' && s[j - 1] == '-') by {
            assert('a' <= s[j] <= 'z');
        }
    }
}

/// A host of letters, digits, dots and hyphens with a port that is not zero is a hint, and is
/// dialled there.
pub proof fn a_host_and_port_is_a_hint(host: Seq<char>, port: u16)
    requires
        1 <= host.len() <= 253,
        forall|i: int| 0 <= i < host.len() ==> 'a' <= (#[trigger] host[i]) <= 'z' || host[i] == '.',
        port > 0,
    ensures
        ({
            let hint = host + seq![':'] + numerals::decimal(port as int);
            &&& address::is_hint(hint)
            &&& crate::introduce::target_of(hint) == Ok::<
                (Seq<char>, u16),
                crate::introduce::IntroduceErrorView,
            >((host, port))
        }),
{
    let hint = host + seq![':'] + numerals::decimal(port as int);
    let at = host.len() as int;
    texts::numbers_are_written_in_decimal(port as int);
    assert(hint[at] == ':');
    assert forall|j: int| at < j < hint.len() implies hint[j] != ':' by {
        let d = numerals::decimal(port as int)[j - at - 1];
        assert(hint[j] == d);
        assert('0' <= d <= '9');
    }
    texts::the_last_place_is_the_last(hint, ':', at);
    assert(hint.skip(at + 1) =~= numerals::decimal(port as int));
    assert(hint.take(at) =~= host);
    assert forall|i: int| 0 <= i < at implies address::is_host_char(#[trigger] hint[i]) by {
        assert(hint[i] == host[i]);
    }
}

/// A hint is dialled at its last colon: a port of zero, no port or no host is no hint.
pub proof fn a_hint_needs_a_host_and_a_port(s: Seq<char>)
    requires
        address::is_hint(s),
    ensures
        ({
            let at = text::last_of(s, ':');
            &&& 1 <= at <= 253
            &&& (numerals::unsigned_value(s.skip(at + 1)) matches Some(port) && 1 <= port <= 65535)
        }),
{
}

/// A message is posted to the host and port of the endpoint, with the digest of its own body, its
/// length, and every extension.
pub proof fn a_message_is_posted_with_its_digest(
    host: Seq<char>,
    port: u16,
    path: Seq<char>,
    body: Seq<u8>,
    extensions: Seq<Seq<char>>,
)
    ensures
        (a2a_client::plan_to(Some((host, port, path)), body, extensions) matches Ok(plan) && plan.host
            == host && plan.port == port && plan.head == a2a_client::request_head(
            path,
            "sha-256=:"@ + outside::base64_of(outside::sha256_of(body)) + ":"@,
            extensions,
            body.len(),
        )),
        (a2a_client::plan_to(None, body, extensions) matches Err(p) && p.status == 500 && p.type_
            == "urn:akson:error:"@ + "bad-endpoint"@),
{
}

/// Extensions are listed in their order, with a comma and a blank between them.
pub proof fn extensions_are_listed_in_order(texts: Seq<Seq<char>>, last: Seq<char>)
    ensures
        texts.len() == 0 ==> a2a_client::listed(texts.push(last)) == last,
        texts.len() > 0 ==> a2a_client::listed(texts.push(last)) == a2a_client::listed(texts) + ", "@
            + last,
{
    assert(texts.push(last).drop_last() =~= texts);
}

/// A response is a status and the bytes after the first blank line: nothing of the body is lost
/// and nothing of the head is in it.
pub proof fn a_response_is_what_follows_its_head(
    raw: Seq<u8>,
    at: int,
    r: Option<(u16, Seq<u8>)>,
)
    requires
        a2a_client::holds_response(raw, r),
        0 <= at,
        at + 4 <= raw.len(),
        raw[at] == 13,
        raw[at + 1] == 10,
        raw[at + 2] == 13,
        raw[at + 3] == 10,
        forall|j: int| 0 <= j < at ==> !(raw[j] == 13 && raw[j + 1] == 10 && raw[j + 2] == 13 && #[trigger] raw[j
            + 3] == 10),
    ensures
        (r matches Some((status, body)) ==> body == raw.skip(at + 4) && valid_utf8(raw.take(at))
            && a2a_client::status_in(decode_utf8(raw.take(at))) == Some(status)),
        r is None ==> !valid_utf8(raw.take(at)) || a2a_client::status_in(decode_utf8(raw.take(at))) is None,
{
    assert(a2a_client::ends_head(raw, at));
    let found = choose|found: int| #[trigger]
        a2a_client::ends_head(raw, found) && (forall|j: int|
            0 <= j < found ==> !a2a_client::ends_head(raw, j)) && r == a2a_client::response_at(raw, found);
    if found < at {
        assert(raw[found + 3] == 10);
        assert(false);
    }
    if found > at {
        assert(!a2a_client::ends_head(raw, at));
    }
}

/// A status is the second word of the first line, and fits 16 bits.
pub proof fn a_status_is_the_second_word(head: Seq<char>)
    ensures
        ({
            let line = text::words(text::without_return(head.take(text::first_of(head, '\n'))));
            &&& (a2a_client::status_in(head) matches Some(status) ==> line.len() >= 2
                && numerals::unsigned_value(line[1]) == Some(status as int))
            &&& line.len() >= 2 && (numerals::unsigned_value(line[1]) matches Some(n) && n <= 65535)
                ==> a2a_client::status_in(head) is Some
        }),
{
}

/// No more than 65536 bytes of a response are read, 1048576 of a request of a worker, and 1024
/// requests of one worker.
pub proof fn reading_is_bounded(served: nat, read: LineReadView)
    ensures
        a2a_client::MAX_RESPONSE_BODY == 65536,
        broker_channel::MAX_REQUEST_BYTES == 1048576,
        served >= 1024 ==> broker_channel::step_of(served, read) is Stop,
        served < 1024 ==> match read {
            LineReadView::Line(bytes) => if bytes.len() == 0 {
                broker_channel::step_of(served, read) is Skip
            } else {
                broker_channel::step_of(served, read) == ChannelStepView::Read(bytes)
            },
            LineReadView::TooLarge => broker_channel::step_of(served, read) == ChannelStepView::Refuse(
                "request too large"@,
            ),
            _ => broker_channel::step_of(served, read) is Stop,
        },
{
}

/// A request of a worker is made to the processor that it names, with the bytes of what it asks.
pub proof fn a_worker_is_answered_as_it_asked(parsed: Option<BrokerRequest>, r: ChannelAnswer)
    requires
        broker_channel::answers_request(parsed, r),
    ensures
        parsed is Some <==> r is Call,
        (r matches ChannelAnswer::Call { processor_id, request } ==> processor_id@
            == parsed->0.processor_id@ && request@ == encode_utf8(parsed->0.request@)),
        (r matches ChannelAnswer::Error(e) ==> e@ == "malformed broker request"@),
{
}

/// A line over its bound is refused, and one without an end is none.
pub proof fn a_line_ends_where_it_ends(line: Seq<u8>, cap: nat)
    requires
        forall|i: int| 0 <= i < line.len() ==> line[i] != 10,
    ensures
        line.len() > cap ==> broker_channel::line_of(line, cap).0 is TooLarge,
        line.len() <= cap ==> broker_channel::line_of(line, cap).0 is Eof,
{
    lemma_no_end(line);
}

proof fn lemma_no_end(line: Seq<u8>)
    requires
        forall|i: int| 0 <= i < line.len() ==> line[i] != 10,
    ensures
        broker_channel::line_end(line) == line.len(),
    decreases line.len(),
{
    if line.len() > 0 {
        assert forall|i: int| 0 <= i < line.skip(1).len() implies line.skip(1)[i] != 10 by {
            assert(line[i + 1] != 10);
        }
        lemma_no_end(line.skip(1));
    }
}

/// What came of posting is the response that was read, or a 502 that says why there is none.
pub proof fn a_post_ends_with_a_response_or_a_502(
    exchange: Result<Seq<u8>, Seq<char>>,
    r: Result<(u16, Seq<u8>), control::ProblemView>,
)
    requires
        a2a_client::post_result(exchange, r),
    ensures
        (exchange matches Err(why) ==> (r matches Err(p) && p.status == 502 && p.detail == Some(why)
            && p.type_ == "urn:akson:error:"@ + "peer-io"@)),
        (exchange matches Ok(raw) ==> match r {
            Ok(response) => a2a_client::holds_response(raw, Some(response)),
            Err(p) => p.status == 502 && p.detail is None && a2a_client::holds_response(raw, None),
        }),
{
}

/// A daemon that comes up leaves nothing under way: what was is in doubt, and everything else is
/// as it was.
pub proof fn coming_up_leaves_nothing_under_way(v: StoreView, w: StoreView, now: i64, id: Seq<char>)
    requires
        config::recovered(v, w, now),
    ensures
        w.attempts.contains_key(id) <==> v.attempts.contains_key(id),
        w.calls.contains_key(id) <==> v.calls.contains_key(id),
        v.attempts.contains_key(id) ==> (if v.attempts[id].state is Claimed
            || v.attempts[id].state is Running {
            w.attempts[id].state is Ambiguous
        } else {
            w.attempts[id] == v.attempts[id]
        }),
        v.calls.contains_key(id) ==> (if v.calls[id].state is Dispatching {
            w.calls[id].state is Ambiguous && w.calls[id].call == v.calls[id].call
        } else {
            w.calls[id] == v.calls[id]
        }),
        w == (StoreView { attempts: w.attempts, calls: w.calls, audit: w.audit, ..v }),
{
}

} // verus!
