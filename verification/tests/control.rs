//! Which surface reaches which operation.
use akson::control::{authorize, ControlOp, Problem, Surface};
use akson::request::ControlRequest;

const WORKER_OPS: [ControlOp; 5] = [
    ControlOp::SubmitTaskInput,
    ControlOp::ReportProgress,
    ControlOp::SubmitResult,
    ControlOp::ReferenceEvidence,
    ControlOp::RequestProcessorCall,
];

const ADMIN_ONLY_OPS: [ControlOp; 15] = [
    ControlOp::Pair,
    ControlOp::Policy,
    ControlOp::ApproveContract,
    ControlOp::IssueWorkOrder,
    ControlOp::SignOutcome,
    ControlOp::DeliverResult,
    ControlOp::SendTask,
    ControlOp::Export,
    ControlOp::Recovery,
    ControlOp::Processor,
    ControlOp::TaskCancel,
    ControlOp::RunWorker,
    ControlOp::FulfillTask,
    ControlOp::Diagnose,
    ControlOp::StageConsent,
];

const COORD_OPS: [ControlOp; 8] = [
    ControlOp::CoordWhoAmI,
    ControlOp::CoordPeerShow,
    ControlOp::CoordStage,
    ControlOp::CoordStageShow,
    ControlOp::CoordDispatch,
    ControlOp::CoordTaskStatus,
    ControlOp::CoordEventsRead,
    ControlOp::CoordCapabilityEvidence,
];

#[test]
fn admin_may_do_everything() {
    for op in WORKER_OPS
        .into_iter()
        .chain(ADMIN_ONLY_OPS)
        .chain(COORD_OPS)
    {
        authorize(Surface::Admin, op).unwrap_or_else(|_| panic!("admin should allow {op:?}"));
    }
}

#[test]
fn coord_may_do_exactly_the_eight_coordination_ops() {
    for op in COORD_OPS {
        authorize(Surface::Coord, op).unwrap_or_else(|_| panic!("coord should allow {op:?}"));
    }
    for op in ADMIN_ONLY_OPS {
        assert_eq!(
            authorize(Surface::Coord, op).unwrap_err().status,
            403,
            "coord must not reach {op:?}"
        );
    }
}

#[test]
fn the_two_narrow_surfaces_dominate_nothing_including_each_other() {
    for op in COORD_OPS {
        assert!(authorize(Surface::Worker, op).is_err(), "worker ⊅ {op:?}");
    }
    for op in WORKER_OPS {
        assert!(authorize(Surface::Coord, op).is_err(), "coord ⊅ {op:?}");
    }
}

#[test]
fn worker_may_only_do_the_four_task_io_ops() {
    for op in WORKER_OPS {
        authorize(Surface::Worker, op).unwrap_or_else(|_| panic!("worker should allow {op:?}"));
    }
}

#[test]
fn worker_cannot_bear_authority() {
    for op in [
        ControlOp::Pair,
        ControlOp::Policy,
        ControlOp::ApproveContract,
        ControlOp::IssueWorkOrder,
        ControlOp::SignOutcome,
        ControlOp::Export,
    ] {
        let problem = authorize(Surface::Worker, op).unwrap_err();
        assert_eq!(problem.status, 403);
        assert!(!format!("{problem:?}").to_lowercase().contains("workorder"));
    }
}

#[test]
fn the_problem_is_generic_and_serializes_as_rfc9457() {
    let problem = Problem::forbidden_surface(Surface::Worker);
    assert_eq!(problem.type_, "urn:akson:error:forbidden-surface");
    assert_eq!(problem.status, 403);
    assert!(!problem.title.is_empty());
}

#[test]
fn every_operation_is_reached_from_the_surface_it_requires() {
    for op in WORKER_OPS {
        assert_eq!(op.required_surface(), Surface::Worker);
    }
    for op in ADMIN_ONLY_OPS {
        assert_eq!(op.required_surface(), Surface::Admin);
    }
    for op in COORD_OPS {
        assert_eq!(op.required_surface(), Surface::Coord);
    }
}

#[test]
fn a_problem_carries_what_it_is_made_of() {
    let p = Problem::new(409, "label-taken", "another peer holds it");
    assert_eq!(p.type_, "urn:akson:error:label-taken");
    assert_eq!(p.title, "another peer holds it");
    assert_eq!(p.status, 409);
    assert_eq!(p.detail, None);
}

#[test]
fn a_request_is_authorized_as_its_operation() {
    let consent = ControlRequest::StageConsent {
        stage_ref: "stage-1".to_owned(),
    };
    assert_eq!(consent.op(), ControlOp::StageConsent);
    assert!(authorize(Surface::Coord, consent.op()).is_err());
    assert!(authorize(Surface::Admin, consent.op()).is_ok());
    let result = ControlRequest::SubmitResult {
        submission: "{}".to_owned(),
    };
    assert!(authorize(Surface::Worker, result.op()).is_ok());
    assert!(authorize(Surface::Coord, result.op()).is_err());
    assert_eq!(ControlRequest::CoordWhoAmI.op(), ControlOp::CoordWhoAmI);
}
