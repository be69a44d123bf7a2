//! What a worker may put out.
use akson::authority::{
    ArtifactExportScope, CapabilityComponent, CapabilityVector, Grant, RespondScope,
};
use akson::gate::{gate_outputs, GateReject, OutputChannel, ProposedOutput};

fn vector() -> CapabilityVector {
    CapabilityVector::new(vec![
        Grant::Respond(RespondScope {
            task_id: "task-1".to_owned(),
            message_id: "msg-1".to_owned(),
            recipient: "request-origin".to_owned(),
            max_responses: 1,
            max_bytes: 8192,
            deadline: "2030-01-01T00:00:00Z".to_owned(),
        }),
        Grant::ArtifactExport(ArtifactExportScope {
            recipient: "request-origin".to_owned(),
            task_id: "task-1".to_owned(),
            media_types: vec!["application/json".to_owned(), "text/plain".to_owned()],
            max_count: 2,
            max_bytes: 4096,
        }),
    ])
    .unwrap()
}

fn response(recipient: &str, bytes: u64) -> ProposedOutput {
    ProposedOutput {
        channel: OutputChannel::Response,
        recipient: recipient.to_owned(),
        media_type: "application/json".to_owned(),
        bytes,
    }
}

fn artifact(media_type: &str, bytes: u64) -> ProposedOutput {
    ProposedOutput {
        channel: OutputChannel::Artifact,
        recipient: "request-origin".to_owned(),
        media_type: media_type.to_owned(),
        bytes,
    }
}

#[test]
fn in_scope_outputs_admit() {
    gate_outputs(
        &vector(),
        &[response("request-origin", 100), artifact("text/plain", 200)],
    )
    .unwrap();
}

#[test]
fn a_channel_without_a_grant_is_denied() {
    let only_respond = CapabilityVector::new(vec![Grant::Respond(RespondScope {
        task_id: "t".to_owned(),
        message_id: "m".to_owned(),
        recipient: "request-origin".to_owned(),
        max_responses: 1,
        max_bytes: 8192,
        deadline: "2030-01-01T00:00:00Z".to_owned(),
    })])
    .unwrap();
    let err = gate_outputs(&only_respond, &[artifact("application/json", 10)]).unwrap_err();
    assert_eq!(err.index, 0);
    assert_eq!(
        err.reason,
        GateReject::NoGrant(CapabilityComponent::ArtifactExport)
    );
}

#[test]
fn a_widened_recipient_is_rejected() {
    let err = gate_outputs(&vector(), &[response("someone-else", 100)]).unwrap_err();
    assert!(matches!(err.reason, GateReject::Recipient { .. }));
}

#[test]
fn an_unlisted_media_type_is_rejected() {
    let err = gate_outputs(&vector(), &[artifact("image/png", 100)]).unwrap_err();
    assert_eq!(
        err.reason,
        GateReject::MediaType {
            got: "image/png".to_owned()
        }
    );
}

#[test]
fn an_oversize_output_is_rejected_with_its_index() {
    let outputs = vec![
        response("request-origin", 100),
        artifact("text/plain", 5000),
    ];
    let err = gate_outputs(&vector(), &outputs).unwrap_err();
    assert_eq!(err.index, 1);
    assert_eq!(
        err.reason,
        GateReject::Size {
            max: 4096,
            got: 5000
        }
    );
}

#[test]
fn exceeding_the_response_count_is_rejected() {
    let outputs = vec![
        response("request-origin", 10),
        response("request-origin", 10),
    ];
    let err = gate_outputs(&vector(), &outputs).unwrap_err();
    assert_eq!(err.index, 1);
    assert_eq!(err.reason, GateReject::Count { max: 1 });
}

#[test]
fn nothing_at_all_is_in_scope() {
    assert!(gate_outputs(&vector(), &[]).is_ok());
}

#[test]
fn the_first_fault_is_the_one_that_is_told() {
    let outputs = vec![
        response("request-origin", 9000),
        artifact("image/png", 100),
    ];
    let err = gate_outputs(&vector(), &outputs).unwrap_err();
    assert_eq!(err.index, 0);
    assert_eq!(
        err.reason,
        GateReject::Size {
            max: 8192,
            got: 9000
        }
    );
}
