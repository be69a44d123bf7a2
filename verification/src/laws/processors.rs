//! A processor is kept as the operator configured it, shown as it is kept, and called within
//! what the order allows.
use crate::broker::{
    AuthSchemeView, DisclosureView, ProcessorCallView, ProcessorConfigView, SubAttemptEvent,
    SubAttemptState,
};
use crate::broker;
use crate::laws::lists;
use crate::operator::{ProcessorListedView};
use crate::operator;
use crate::store::processors::{PrepareOutcome};
use crate::store::processors;
use crate::store::rows::{CallRowView, ProcessorRowView};
use crate::store::StoreView;
use crate::text;
use vstd::prelude::*;

verus! {

/// What is configured reads back: under its id the processor has the provider, the origin, the
/// pin, the path and the headers that it was added with. It discloses nothing exactly where it
/// was added as local; otherwise it discloses to its provider. It is at the root where no path
/// is given, and is sent a bearer token where nothing is said of how it authenticates.
pub proof fn a_processor_reads_back(
    v: StoreView,
    processor_id: Seq<char>,
    provider: Seq<char>,
    origin_host: Seq<char>,
    origin_port: u16,
    local: bool,
    pin: Option<Seq<char>>,
    path: Option<Seq<char>>,
    auth: Option<Seq<char>>,
    headers: Seq<Seq<char>>,
    now: i64,
)
    ensures
        ({
            let w = operator::with_processor(
                v,
                operator::processor_of(
                    processor_id,
                    provider,
                    origin_host,
                    origin_port,
                    local,
                    pin,
                    path,
                    auth,
                    headers,
                ),
                now,
            );
            let kept = w.processors[processor_id].config;
            &&& w.processors.contains_key(processor_id)
            &&& kept.processor_id == processor_id
            &&& kept.provider == provider
            &&& kept.origin.host == origin_host
            &&& kept.origin.port == origin_port
            &&& (kept.disclosure is Local) <==> local
            &&& !local ==> (kept.disclosure matches DisclosureView::Remote { recipient, region }
                && recipient == provider && region == "configured"@)
            &&& kept.tls_certificate_sha256 == pin
            &&& path is Some ==> kept.path == path->0
            &&& path is None ==> kept.path == "/"@
            &&& kept.config == "{}"@
            &&& (kept.auth is Bearer) <==> (auth is None || auth->0 == "bearer"@)
            &&& (kept.auth is Unauthenticated) <==> (auth is Some && auth->0 == "none"@ && auth->0
                != "bearer"@)
            &&& kept.auth matches AuthSchemeView::Header { header } ==> auth == Some(header)
            &&& v.processors.contains_key(processor_id) ==> w.processors[processor_id].added_at
                == v.processors[processor_id].added_at
            &&& !v.processors.contains_key(processor_id) ==> w.processors[processor_id].added_at
                == now
            &&& forall|other: Seq<char>| other != processor_id ==> (
            #[trigger] w.processors.contains_key(other) == v.processors.contains_key(other))
                && w.processors[other] == v.processors[other]
            &&& w.credentials == v.credentials
            &&& w.calls == v.calls
            &&& w.audit.records.len() == v.audit.records.len() + 1
            &&& w.audit.records.last().detail == processor_id
        }),
{
}

/// A header is read from its line: the name is before the first colon and the value after it.
pub proof fn a_header_is_read_from_its_line(name: Seq<char>, value: Seq<char>)
    requires
        !name.contains(':'),
        name.len() > 0,
        !text::is_white_space(name[0]) && !text::is_white_space(name.last()),
        value.len() > 0,
        !text::is_white_space(value[0]) && !text::is_white_space(value.last()),
    ensures
        operator::header_of(name + seq![':'] + value) is Some,
        operator::header_of(name + seq![':'] + value)->0.name == name,
        operator::header_of(name + seq![':'] + value)->0.value == value,
{
    let line = name + seq![':'] + value;
    text::lemma_first_of(line, ':');
    let at = text::first_of(line, ':');
    assert(line[name.len() as int] == ':');
    if at < name.len() {
        assert(name[at] == ':');
        assert(false);
    }
    assert(line.take(at) =~= name);
    assert(line.skip(at + 1) =~= value);
}

/// A line without a colon is no header, and every other line is one, in the order of the lines.
pub proof fn headers_follow_their_lines(lines: Seq<Seq<char>>, line: Seq<char>)
    ensures
        line.contains(':') ==> operator::headers_of(lines.push(line)).len() == operator::headers_of(
            lines,
        ).len() + 1 && operator::headers_of(lines.push(line)).drop_last() == operator::headers_of(
            lines,
        ) && operator::headers_of(lines.push(line)).last() == operator::header_of(line)->0,
        !line.contains(':') ==> operator::headers_of(lines.push(line)) == operator::headers_of(
            lines,
        ),
        operator::headers_of(Seq::empty()).len() == 0,
{
    assert(lines.push(line).drop_last() =~= lines);
    assert(lines.push(line).last() == line);
    text::lemma_first_of(line, ':');
    let at = text::first_of(line, ':');
    if line.contains(':') {
        let i = choose|i: int| 0 <= i < line.len() && line[i] == ':';
        if at >= line.len() {
            assert(line[i] != ':');
        }
        let h = operator::header_of(line)->0;
        assert(operator::headers_of(lines).push(h).drop_last() =~= operator::headers_of(lines));
    } else if at < line.len() {
        assert(line.contains(line[at]));
    }
}

/// A list of processors shows each that is configured, once, by id: it is shown as local exactly
/// where it discloses nothing, as pinned exactly where a certificate is held to it, and at its
/// origin.
pub proof fn processors_are_shown_as_they_are_kept(
    v: StoreView,
    list: Seq<ProcessorListedView>,
    id: Seq<char>,
)
    requires
        operator::processors_shown(v, list),
        v.processors.contains_key(id),
    ensures
        exists|i: int|
            0 <= i < list.len() && {
                let kept = v.processors[id].config;
                let shown = #[trigger] list[i];
                &&& shown.processor_id == kept.processor_id
                &&& shown.provider == kept.provider
                &&& (shown.local) <==> (kept.disclosure is Local)
                &&& (shown.pinned) <==> (kept.tls_certificate_sha256 is Some)
                &&& shown.origin == "https://"@ + kept.origin.host + ":"@ + crate::numerals::decimal(
                    kept.origin.port as int,
                )
            },
{
    let base = choose|base: Seq<ProcessorConfigView>| #[trigger]
        processors::processors_listed(v, base) && list == base.map_values(
            |c: ProcessorConfigView| operator::processor_listed(c),
        );
    let i = lists::every_row_is_listed(
        base,
        v.processors,
        |k: Seq<char>, row: ProcessorRowView| true,
        |k: Seq<char>, row: ProcessorRowView| processors::processor_shown(k, row),
        |a: (Seq<char>, ProcessorRowView), b: (Seq<char>, ProcessorRowView)|
            processors::by_processor(a, b),
        id,
    );
    assert(base[i] == v.processors[id].config);
    assert(list[i] == operator::processor_listed(base[i]));
}

/// A list of processors shows nothing else.
pub proof fn only_kept_processors_are_shown(v: StoreView, list: Seq<ProcessorListedView>, i: int)
    requires
        operator::processors_shown(v, list),
        0 <= i < list.len(),
    ensures
        exists|id: Seq<char>| #[trigger]
            v.processors.contains_key(id) && list[i].processor_id
                == v.processors[id].config.processor_id && (list[i].local
                <==> v.processors[id].config.disclosure is Local) && (list[i].pinned
                <==> v.processors[id].config.tls_certificate_sha256 is Some),
{
    let base = choose|base: Seq<ProcessorConfigView>| #[trigger]
        processors::processors_listed(v, base) && list == base.map_values(
            |c: ProcessorConfigView| operator::processor_listed(c),
        );
    let k = lists::what_is_listed_is_a_row(
        base,
        v.processors,
        |k: Seq<char>, row: ProcessorRowView| true,
        |k: Seq<char>, row: ProcessorRowView| processors::processor_shown(k, row),
        |a: (Seq<char>, ProcessorRowView), b: (Seq<char>, ProcessorRowView)|
            processors::by_processor(a, b),
        i,
    );
    assert(v.processors.contains_key(k) && base[i] == v.processors[k].config);
}

/// What was added is listed as it was added: as local exactly where it was added as local, and
/// as pinned exactly where a certificate was given.
pub proof fn an_added_processor_is_listed_as_added(
    v: StoreView,
    processor_id: Seq<char>,
    provider: Seq<char>,
    origin_host: Seq<char>,
    origin_port: u16,
    local: bool,
    pin: Option<Seq<char>>,
    path: Option<Seq<char>>,
    auth: Option<Seq<char>>,
    headers: Seq<Seq<char>>,
    now: i64,
    list: Seq<ProcessorListedView>,
)
    requires
        operator::processors_shown(
            operator::with_processor(
                v,
                operator::processor_of(
                    processor_id,
                    provider,
                    origin_host,
                    origin_port,
                    local,
                    pin,
                    path,
                    auth,
                    headers,
                ),
                now,
            ),
            list,
        ),
    ensures
        exists|i: int|
            0 <= i < list.len() && (#[trigger] list[i]).processor_id == processor_id
                && list[i].provider == provider && list[i].local == local && list[i].pinned
                == pin is Some,
{
    let w = operator::with_processor(
        v,
        operator::processor_of(
            processor_id,
            provider,
            origin_host,
            origin_port,
            local,
            pin,
            path,
            auth,
            headers,
        ),
        now,
    );
    processors_are_shown_as_they_are_kept(w, list, processor_id);
}

/// A call is prepared once, within the budget of its order: it is refused exactly where the
/// order has as many calls as it allows and this is not one of them; and it is then on record as
/// it was asked for, with nothing sent.
pub proof fn a_call_is_prepared_within_the_budget(
    v: StoreView,
    call: ProcessorCallView,
    max_operations: u32,
    now: i64,
)
    ensures
        ({
            let known = v.calls.contains_key(call.idempotency_key);
            let made = v.calls.dom().filter(
                |k: Seq<char>| v.calls[k].call.work_order_id == call.work_order_id,
            ).len();
            let w = processors::with_call(v, call, now);
            let row = w.calls[call.idempotency_key];
            &&& match processors::prepare_verdict(v, call, max_operations) {
                PrepareOutcome::AlreadyPrepared(state) => known && state
                    == v.calls[call.idempotency_key].state,
                PrepareOutcome::BudgetExhausted { max_operations: max } => !known && max
                    == max_operations && made >= max_operations,
                PrepareOutcome::Prepared => !known && made < max_operations,
            }
            &&& row.call == call
            &&& row.state is Prepared
            &&& row.prepared_at == now
            &&& forall|k: Seq<char>| k != call.idempotency_key ==> (
            #[trigger] w.calls.contains_key(k) == v.calls.contains_key(k)) && w.calls[k]
                == v.calls[k]
        }),
{
    let hit = |k: Seq<char>, row: CallRowView| row.call.work_order_id == call.work_order_id;
    assert(processors::calls_of(v, call.work_order_id).dom() =~= v.calls.dom().filter(
        |k: Seq<char>| v.calls[k].call.work_order_id == call.work_order_id,
    ));
}

/// A call runs one way: prepared, then sent, then ended as completed or failed; a crash while it
/// is sent leaves it in doubt. Nothing follows an end.
pub proof fn a_call_runs_one_way(s: SubAttemptState, e: SubAttemptEvent)
    ensures
        match broker::next_call_state(s, e) {
            Ok(n) => {
                &&& n is Dispatching <==> s is Prepared && e is Dispatch
                &&& n is Completed <==> s is Dispatching && e is Complete
                &&& n is Failed <==> (s is Prepared || s is Dispatching) && e is Fail
                &&& n is Ambiguous <==> s is Dispatching && e is Crash
                &&& !(n is Prepared)
            },
            Err(_) => {
                &&& !(s is Prepared && (e is Dispatch || e is Fail))
                &&& !(s is Dispatching && (e is Complete || e is Fail || e is Crash))
            },
        },
{
}

/// A crash leaves in doubt the calls that were being sent, and nothing else.
pub proof fn a_crash_leaves_in_doubt_what_was_being_sent(
    v: StoreView,
    w: StoreView,
    keys: Seq<Seq<char>>,
    now: i64,
    k: Seq<char>,
)
    requires
        processors::recovered_calls(v, w, keys, now),
    ensures
        w.calls.contains_key(k) == v.calls.contains_key(k),
        v.calls.contains_key(k) ==> {
            &&& w.calls[k].call == v.calls[k].call
            &&& v.calls[k].state is Dispatching ==> w.calls[k].state is Ambiguous && keys.contains(k)
            &&& !(v.calls[k].state is Dispatching) ==> w.calls[k] == v.calls[k] && !keys.contains(k)
        },
        w.attempts == v.attempts,
{
}

/// Moving a call changes its state and nothing else of it, and is in the log.
pub proof fn moving_a_call_keeps_the_call(
    v: StoreView,
    key: Seq<char>,
    state: SubAttemptState,
    now: i64,
)
    ensures
        ({
            let w = processors::with_call_state(v, key, state, now);
            &&& w.calls[key].state == state
            &&& w.calls[key].call == v.calls[key].call
            &&& w.calls[key].prepared_at == v.calls[key].prepared_at
            &&& w.audit.records.len() == v.audit.records.len() + 1
            &&& w.audit.records.last().ts == now
            &&& key.is_prefix_of(w.audit.records.last().detail)
        }),
{
    let detail = key + ":"@ + state.name();
    assert(detail.take(key.len() as int) =~= key);
}

} // verus!
