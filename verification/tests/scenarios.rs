use money_transfer::account_transfer_workflow_scenarios::{
    handle_approve_transfer_signal, handle_approve_transfer_update, handle_transfer_status_query,
    validate_approve_transfer_update, ApprovalRejection, ScenarioState,
};
use money_transfer::shared::{DepositResponse, TransferState};
use money_transfer::transfer::Command;

#[test]
fn new_scenario_state_allows_thirty_seconds() {
    let s = ScenarioState::new();
    assert_eq!(s.progress, 0);
    assert_eq!(s.approval_time, 30);
    assert!(!s.approved);
    assert_eq!(s.transfer_state, TransferState::NoneType);
    assert_eq!(s.deposit_response.charge_id, "");
}

#[test]
fn signal_approves_only_a_waiting_transfer() {
    let mut s = ScenarioState::new();
    handle_approve_transfer_signal(&mut s);
    assert!(!s.approved);
    s.update_progress_status(30, TransferState::Waiting);
    handle_approve_transfer_signal(&mut s);
    assert!(s.approved);
}

#[test]
fn update_validator_refuses_what_it_must() {
    let mut s = ScenarioState::new();
    let err = validate_approve_transfer_update(&s).unwrap_err();
    assert_eq!(err, ApprovalRejection::NotAwaitingApproval);
    assert_eq!(err.message(), "Validation Failed: Transfer doesn't require approval");
    s.update_progress_status(30, TransferState::Waiting);
    assert!(validate_approve_transfer_update(&s).is_ok());
    assert_eq!(handle_approve_transfer_update(&mut s), "successfully approved transfer");
    assert!(s.approved);
    let err = validate_approve_transfer_update(&s).unwrap_err();
    assert_eq!(err, ApprovalRejection::AlreadyApproved);
    assert_eq!(err.message(), "Validation Failed: Transfer already approved");
}

#[test]
fn status_query_reports_the_state() {
    let mut s = ScenarioState::new();
    s.update_progress(50);
    s.apply(&Command::RecordDeposit(DepositResponse { charge_id: "ch-1".to_string() }));
    let status = handle_transfer_status_query(&s);
    assert_eq!(status.progress_percentage, 50);
    assert_eq!(status.transfer_state, "running");
    assert_eq!(status.workflow_status, "");
    assert_eq!(status.charge_result.charge_id, "ch-1");
    assert_eq!(status.approval_time, 30);
}

#[test]
fn transfer_state_texts() {
    assert_eq!(TransferState::NoneType.to_string(), "");
    assert_eq!(TransferState::Waiting.to_string(), "waiting");
    assert_eq!(TransferState::Running.to_string(), "running");
    assert_eq!(TransferState::Finished.to_string(), "finished");
    assert_eq!(TransferState::default(), TransferState::NoneType);
}
