//! The operator's view of submitted tasks.
use crate::contract::{Contract, ContractView, HeadState};
use crate::control::{Problem, ProblemView};
use crate::control;
use crate::issue;
use crate::request::ControlRequest;
use crate::store::contracts::TaskHead;
use crate::store::contracts;
use crate::store::{Store, StoreView};
use crate::table::Record;
use crate::table;
use vstd::prelude::*;

verus! {

/// What the operator reads of a task before deciding.
#[derive(Debug, Clone, PartialEq, Eq)]
pub struct TaskCard {
    pub task_id: String,
    pub revision: u64,
    pub terms: Contract,
}

/// The view of [`TaskCard`].
#[verifier::ext_equal]
pub struct TaskCardView {
    pub task_id: Seq<char>,
    pub revision: u64,
    pub terms: ContractView,
}

impl View for TaskCard {
    type V = TaskCardView;

    open spec fn view(&self) -> TaskCardView {
        TaskCardView {
            task_id: self.task_id@,
            revision: self.revision,
            terms: self.terms@,
        }
    }
}

impl Record for TaskCard {
    fn dup(&self) -> (r: Self) {
        let r = TaskCard {
            task_id: self.task_id.clone(),
            revision: self.revision,
            terms: self.terms.dup(),
        };
        r
    }
}

/// The answer to a request about submitted tasks.
#[derive(Debug, Clone, PartialEq, Eq)]
pub enum TaskAnswer {
    /// The tasks that await a decision. Each of them is submitted.
    Inbox(Vec<TaskHead>),
    /// The terms of a task.
    Card(TaskCard),
}

/// The request is not one about submitted tasks.
pub open spec fn unsupported_problem() -> ProblemView {
    control::problem_of(
        400,
        "unsupported-operation"@,
        "this operation is not a store-backed control request"@,
    )
}

/// What the operator reads of a task, open or accepted.
pub open spec fn card_of_task(v: StoreView, task_id: Seq<char>) -> Result<TaskCardView, ProblemView> {
    if !v.heads.contains_key(task_id) || !v.contracts.contains_key(v.heads[task_id].digest) {
        Err(control::problem_of(404, "no-such-task"@, "no such task"@))
    } else {
        match v.contracts[v.heads[task_id].digest].contract {
            Some(terms) => Ok(
                TaskCardView { task_id, revision: v.heads[task_id].revision, terms },
            ),
            None => Err(issue::unreadable_contract()),
        }
    }
}

/// The submitted tasks that await a decision.
fn task_inbox(store: &Store) -> (r: Result<Vec<TaskHead>, Problem>)
    requires
        store.wf(),
    ensures
        match r {
            Ok(list) => contracts::tasks_listed(store@, false, table::seen(list@)),
            Err(_) => false,
        },
{
    match store.list_submitted_tasks() {
        Ok(list) => Ok(list),
        Err(_) => Err(Problem::internal()),
    }
}

/// What the operator reads of a task.
fn task_show(store: &Store, task_id: &str) -> (r: Result<TaskCard, Problem>)
    requires
        store.wf(),
    ensures
        issue::agrees(r, card_of_task(store@, task_id@)),
{
    let head = match store.contract_head(task_id) {
        Ok(HeadState::Open(head)) => head,
        Ok(HeadState::Locked(head)) => head,
        _ => {
            return Err(Problem::new(404, "no-such-task", "no such task"));
        },
    };
    match store.contract_terms(&head.digest) {
        None => Err(Problem::new(404, "no-such-task", "no such task")),
        Some(None) => Err(
            Problem::new(500, "corrupt-contract", "the stored contract could not be parsed"),
        ),
        Some(Some(terms)) => Ok(
            TaskCard { task_id: task_id.to_owned(), revision: head.revision, terms },
        ),
    }
}

/// What comes of a request about submitted tasks.
pub open spec fn answers_on_tasks(
    v: StoreView,
    request: ControlRequest,
    r: Result<TaskAnswer, Problem>,
) -> bool {
    match request {
        ControlRequest::TaskInbox => match r {
            Ok(TaskAnswer::Inbox(list)) => contracts::tasks_listed(v, false, table::seen(list@)),
            _ => false,
        },
        ControlRequest::TaskShow { task_id } => match (r, card_of_task(v, task_id@)) {
            (Ok(TaskAnswer::Card(card)), Ok(c)) => card@ == c,
            (Err(p), Err(q)) => p@ == q,
            _ => false,
        },
        _ => match r {
            Err(p) => p@ == unsupported_problem(),
            Ok(_) => false,
        },
    }
}

/// Answers a request about submitted tasks.
pub fn dispatch_control(store: &Store, request: &ControlRequest) -> (r: Result<TaskAnswer, Problem>)
    requires
        store.wf(),
    ensures
        answers_on_tasks(store@, *request, r),
{
    match request {
        ControlRequest::TaskInbox => match task_inbox(store) {
            Ok(list) => Ok(TaskAnswer::Inbox(list)),
            Err(p) => Err(p),
        },
        ControlRequest::TaskShow { task_id } => match task_show(store, task_id) {
            Ok(card) => Ok(TaskAnswer::Card(card)),
            Err(p) => Err(p),
        },
        _ => Err(
            Problem::new(
                400,
                "unsupported-operation",
                "this operation is not a store-backed control request",
            ),
        ),
    }
}

} // verus!
