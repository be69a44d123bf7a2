//! The card that the operator reads before consenting to a disclosure: one sentence,
//! and the facts that the decision rests on. The bytes themselves are not shown.
use crate::coord::COORD_PROTOCOL;
use crate::numerals::{decimal_i64, decimal_u64};
use crate::numerals;
use crate::outside::{debug_quote, sha256};
use crate::outside;
use crate::store::imports;
use crate::store::rows::EgressState;
use crate::store::staging::{DispatchRecord, DispatchRecordView, StagedContract, StagedContractView};
use crate::store::{Store, StoreView};
use crate::table::{Record, dup_all};
use crate::table;
use crate::text::copy_texts;
use crate::text;
use vstd::prelude::*;
use vstd::string::*;

verus! {

/// A part of a card.
#[derive(Debug, Clone, PartialEq, Eq)]
pub struct CardSection {
    pub heading: String,
    pub lines: Vec<String>,
}

/// The view of [`CardSection`].
#[verifier::ext_equal]
pub struct CardSectionView {
    pub heading: Seq<char>,
    pub lines: Seq<Seq<char>>,
}

impl View for CardSection {
    type V = CardSectionView;

    open spec fn view(&self) -> CardSectionView {
        CardSectionView {
            heading: self.heading@,
            lines: text::views(self.lines@),
        }
    }
}

impl Record for CardSection {
    fn dup(&self) -> (r: Self) {
        let r = CardSection {
            heading: self.heading.clone(),
            lines: copy_texts(&self.lines),
        };
        r
    }
}

/// A card.
#[derive(Debug, Clone, PartialEq, Eq)]
pub struct RiskCard {
    pub sentence: String,
    pub sections: Vec<CardSection>,
}

/// The view of [`RiskCard`].
#[verifier::ext_equal]
pub struct RiskCardView {
    pub sentence: Seq<char>,
    pub sections: Seq<CardSectionView>,
}

impl View for RiskCard {
    type V = RiskCardView;

    open spec fn view(&self) -> RiskCardView {
        RiskCardView {
            sentence: self.sentence@,
            sections: table::seen(self.sections@),
        }
    }
}

impl Record for RiskCard {
    fn dup(&self) -> (r: Self) {
        let r = RiskCard {
            sentence: self.sentence.clone(),
            sections: dup_all(&self.sections),
        };
        r
    }
}

/// Who receives a disclosure, as it is put in the sentence.
pub open spec fn recipient_phrase(performer: Seq<char>) -> Seq<char> {
    if performer.len() == 0 {
        "no named recipient"@
    } else {
        "your peer "@ + outside::quoted(performer)
    }
}

/// The sentence of a card.
pub open spec fn card_sentence(staged: StagedContractView) -> Seq<char> {
    "You are about to allow ONE outbound disclosure to "@ + recipient_phrase(staged.performer)
        + ": "@ + numerals::decimal(staged.byte_length as int) + " bytes of "@ + staged.task_type + "."@
}

/// What leaves the machine.
pub open spec fn payload_lines(staged: StagedContractView) -> Seq<Seq<char>> {
    seq![
        "task type:   "@ + staged.task_type,
        "bytes:       "@ + numerals::decimal(staged.byte_length as int),
        "payload:     sha256:"@ + staged.payload_sha256,
        "staged as:   "@ + staged.staged_digest,
    ]
}

/// How the relationship behind a root stands.
pub open spec fn relationship_phrase(v: StoreView, root: Seq<char>) -> Seq<char> {
    if v.peers.contains_key(root) {
        v.peers[root].status.column() + " (claims the name "@ + outside::quoted(
            v.peers[root].peer.identity.agent_id,
        ) + ")"@
    } else {
        "imported, not yet introduced"@
    }
}

/// Who receives it.
pub open spec fn recipient_lines(v: StoreView, performer: Seq<char>) -> Seq<Seq<char>> {
    if performer.len() == 0 {
        seq!["recipient label: (none)"@]
    } else {
        let label = "recipient label: "@ + performer;
        match imports::labelled(v, performer) {
            None => seq![label, "this label no longer names an imported peer"@],
            Some(import) => {
                let lines = seq![
                    label,
                    "root thumbprint: "@ + import.root_thumbprint,
                    "relationship: "@ + relationship_phrase(v, import.root_thumbprint),
                ];
                if import.endpoint_hint.len() > 0 {
                    lines.push("endpoint hint: "@ + import.endpoint_hint)
                } else {
                    lines
                }
            },
        }
    }
}

/// What a consent allows.
pub open spec fn allowance_lines() -> Seq<Seq<char>> {
    seq![
        "exactly one dispatch of the staged digest above, once (max_uses 1)"@,
        "nothing else: it grants no model call, no credential, and no inbound authority"@,
        "akson does not interpret these bytes — it discloses them as staged"@,
    ]
}

/// What has already left the machine, by the record of dispatches.
pub open spec fn egress_claim(dispatched: Option<DispatchRecordView>) -> Seq<char> {
    match dispatched {
        None => "staging was inert: nothing has left this machine yet"@,
        Some(d) => match d.egress_state {
            EgressState::Sent => "ALREADY DISCLOSED: dispatch "@ + d.dispatch_receipt
                + " was acknowledged by the recipient — these bytes have left this machine"@,
            EgressState::Failed => "ALREADY DISPATCHED: consent was spent on dispatch "@
                + d.dispatch_receipt
                + " and its carriage failed; the bytes may or may not have left"@,
            EgressState::Pending => "ALREADY DISPATCHED: consent was spent on dispatch "@
                + d.dispatch_receipt
                + " and no acknowledgement is recorded; the bytes may or may not have left"@,
        },
    }
}

/// Who staged it, and what became of it.
pub open spec fn origin_lines(
    staged: StagedContractView,
    dispatched: Option<DispatchRecordView>,
) -> Seq<Seq<char>> {
    seq![
        "the coordination surface ("@ + COORD_PROTOCOL@ + "), at unix time "@ + numerals::decimal(
            staged.staged_at as int,
        ),
        egress_claim(dispatched),
    ]
}

/// The card of a staged disclosure.
pub open spec fn card_of(
    v: StoreView,
    staged: StagedContractView,
    dispatched: Option<DispatchRecordView>,
) -> RiskCardView {
    RiskCardView {
        sentence: card_sentence(staged),
        sections: seq![
            CardSectionView { heading: "What leaves this machine"@, lines: payload_lines(staged) },
            CardSectionView {
                heading: "Who receives it"@,
                lines: recipient_lines(v, staged.performer),
            },
            CardSectionView { heading: "What this consent allows"@, lines: allowance_lines() },
            CardSectionView {
                heading: "Who staged it"@,
                lines: origin_lines(staged, dispatched),
            },
        ],
    }
}

/// The view of an optional dispatch.
pub open spec fn view_dispatch(d: Option<&DispatchRecord>) -> Option<DispatchRecordView> {
    match d {
        Some(d) => Some(d@),
        None => None,
    }
}

fn sentence_of(staged: &StagedContract) -> (r: String)
    ensures
        r@ == card_sentence(staged@),
{
    let recipient = if staged.performer.as_str().is_empty() {
        "no named recipient".to_owned()
    } else {
        let name = debug_quote(&staged.performer);
        "your peer ".to_owned().concat(&name)
    };
    let bytes = decimal_u64(staged.byte_length as u64);
    "You are about to allow ONE outbound disclosure to ".to_owned().concat(&recipient).concat(
        ": ",
    ).concat(&bytes).concat(" bytes of ").concat(&staged.task_type).concat(".")
}

fn payload_section(staged: &StagedContract) -> (r: Vec<String>)
    ensures
        text::views(r@) == payload_lines(staged@),
{
    let bytes = decimal_u64(staged.byte_length as u64);
    let mut lines: Vec<String> = Vec::new();
    lines.push("task type:   ".to_owned().concat(&staged.task_type));
    lines.push("bytes:       ".to_owned().concat(&bytes));
    lines.push("payload:     sha256:".to_owned().concat(&staged.payload_sha256));
    lines.push("staged as:   ".to_owned().concat(&staged.staged_digest));
    assert(text::views(lines@) =~= payload_lines(staged@));
    lines
}

fn relationship_of(store: &Store, root: &str) -> (r: String)
    requires
        store.wf(),
    ensures
        r@ == relationship_phrase(store@, root@),
{
    match store.peer_by_root(root) {
        Ok(Some((agent, status))) => {
            let name = debug_quote(&agent);
            status.concat(" (claims the name ").concat(&name).concat(")")
        },
        _ => "imported, not yet introduced".to_owned(),
    }
}

fn recipient_section(store: &Store, performer: &str) -> (r: Vec<String>)
    requires
        store.wf(),
    ensures
        text::views(r@) == recipient_lines(store@, performer@),
{
    let mut lines: Vec<String> = Vec::new();
    if performer.is_empty() {
        lines.push("recipient label: (none)".to_owned());
        assert(text::views(lines@) =~= recipient_lines(store@, performer@));
        return lines;
    }
    lines.push("recipient label: ".to_owned().concat(performer));
    match store.peer_import_by_label(performer) {
        Ok(Some(import)) => {
            let relationship = relationship_of(store, &import.root_thumbprint);
            lines.push("root thumbprint: ".to_owned().concat(&import.root_thumbprint));
            lines.push("relationship: ".to_owned().concat(&relationship));
            if !import.endpoint_hint.as_str().is_empty() {
                lines.push("endpoint hint: ".to_owned().concat(&import.endpoint_hint));
            }
        },
        _ => {
            lines.push("this label no longer names an imported peer".to_owned());
        },
    }
    assert(text::views(lines@) =~= recipient_lines(store@, performer@));
    lines
}

fn allowance_section() -> (r: Vec<String>)
    ensures
        text::views(r@) == allowance_lines(),
{
    let mut lines: Vec<String> = Vec::new();
    lines.push("exactly one dispatch of the staged digest above, once (max_uses 1)".to_owned());
    lines.push(
        "nothing else: it grants no model call, no credential, and no inbound authority".to_owned(),
    );
    lines.push("akson does not interpret these bytes — it discloses them as staged".to_owned());
    assert(text::views(lines@) =~= allowance_lines());
    lines
}

/// What a card says of what has already left the machine.
pub fn egress_line(dispatched: Option<&DispatchRecord>) -> (r: String)
    ensures
        r@ == egress_claim(view_dispatch(dispatched)),
{
    let d = match dispatched {
        None => {
            return "staging was inert: nothing has left this machine yet".to_owned();
        },
        Some(d) => d,
    };
    match d.egress_state {
        EgressState::Sent => "ALREADY DISCLOSED: dispatch ".to_owned().concat(
            &d.dispatch_receipt,
        ).concat(" was acknowledged by the recipient — these bytes have left this machine"),
        EgressState::Failed => "ALREADY DISPATCHED: consent was spent on dispatch ".to_owned().concat(
            &d.dispatch_receipt,
        ).concat(" and its carriage failed; the bytes may or may not have left"),
        EgressState::Pending => {
            "ALREADY DISPATCHED: consent was spent on dispatch ".to_owned().concat(
                &d.dispatch_receipt,
            ).concat(" and no acknowledgement is recorded; the bytes may or may not have left")
        },
    }
}

fn origin_section(staged: &StagedContract, dispatched: Option<&DispatchRecord>) -> (r: Vec<String>)
    ensures
        text::views(r@) == origin_lines(staged@, view_dispatch(dispatched)),
{
    let at = decimal_i64(staged.staged_at);
    let mut lines: Vec<String> = Vec::new();
    lines.push(
        "the coordination surface (".to_owned().concat(COORD_PROTOCOL).concat(
            "), at unix time ",
        ).concat(&at),
    );
    lines.push(egress_line(dispatched));
    assert(text::views(lines@) =~= origin_lines(staged@, view_dispatch(dispatched)));
    lines
}

/// The card of a staged disclosure. `dispatched` is what the record of dispatches
/// holds of it.
pub fn risk_card(store: &Store, staged: &StagedContract, dispatched: Option<&DispatchRecord>) -> (r:
    RiskCard)
    requires
        store.wf(),
    ensures
        r@ == card_of(store@, staged@, view_dispatch(dispatched)),
{
    let mut sections: Vec<CardSection> = Vec::new();
    sections.push(
        CardSection {
            heading: "What leaves this machine".to_owned(),
            lines: payload_section(staged),
        },
    );
    sections.push(
        CardSection {
            heading: "Who receives it".to_owned(),
            lines: recipient_section(store, &staged.performer),
        },
    );
    sections.push(
        CardSection { heading: "What this consent allows".to_owned(), lines: allowance_section() },
    );
    sections.push(
        CardSection {
            heading: "Who staged it".to_owned(),
            lines: origin_section(staged, dispatched),
        },
    );
    assert(table::seen(sections@) =~= card_of(store@, staged@, view_dispatch(dispatched)).sections);
    RiskCard { sentence: sentence_of(staged), sections }
}

} // verus!
