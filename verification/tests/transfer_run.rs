use money_transfer::account_transfer_workflow::AccountTransferWorkflow;
use money_transfer::account_transfer_workflow_scenarios::ScenarioState;
use money_transfer::shared::{TransferInput, TransferState};
use money_transfer::transfer::{
    undo_withdraw_reason, Activity, Command, Flavor, Outcome, Phase, TransferRun, WorkflowFailure,
    ADVANCED_VISIBILITY, BUG, NEEDS_APPROVAL,
};

fn input() -> TransferInput {
    TransferInput { amount: 42, from_account: "alice".to_string(), to_account: "bob".to_string() }
}

fn scenario_run(workflow_type: &str) -> TransferRun {
    let state = ScenarioState::new();
    state.start(workflow_type.to_string(), "key-1".to_string(), input())
}

fn step(run: &mut TransferRun, outcome: Outcome) -> Command {
    assert!(run.is_expecting(&outcome));
    run.step(outcome)
}

fn ok(v: &str) -> Outcome {
    Outcome::Succeeded(v.to_string())
}

fn assert_execute(cmd: &Command, expected: Activity, publish: bool) {
    match cmd {
        Command::Execute { activity, publish_step } => {
            assert_eq!(*activity, expected);
            assert_eq!(*publish_step, publish);
        }
        other => panic!("expected an activity, got {:?}", other),
    }
}

fn assert_report(cmd: &Command, p: u64, s: TransferState, sleep: u64) {
    match cmd {
        Command::ReportProgress { progress, transfer_state, sleep_secs } => {
            assert_eq!((*progress, *transfer_state, *sleep_secs), (p, s, sleep));
        }
        other => panic!("expected a progress report, got {:?}", other),
    }
}

#[test]
fn basic_transfer_runs_to_completion() {
    let mut wf = AccountTransferWorkflow::new("AccountTransferWorkflow".to_string());
    let mut run = wf.start("key-1".to_string(), input());
    assert_eq!(wf.idempotency_key, "key-1");
    assert_eq!(run.activity_input.amount, 42);
    assert_eq!(run.activity_input.workflow_type, "AccountTransferWorkflow");

    let c = step(&mut run, Outcome::Started);
    assert_execute(&c, Activity::Validate, false);
    let c = step(&mut run, ok("SUCCESS"));
    assert_report(&c, 25, TransferState::NoneType, 1);
    wf.apply(&c);
    let c = step(&mut run, Outcome::Resumed);
    assert_execute(&c, Activity::Withdraw, false);
    let c = step(&mut run, ok("SUCCESS"));
    assert_report(&c, 50, TransferState::NoneType, 3);
    wf.apply(&c);
    let c = step(&mut run, Outcome::Resumed);
    assert_execute(&c, Activity::Deposit, false);
    let c = step(&mut run, ok("example-transfer-id"));
    match &c {
        Command::RecordDeposit(d) => assert_eq!(d.charge_id, "example-transfer-id"),
        other => panic!("unexpected {:?}", other),
    }
    wf.apply(&c);
    let c = step(&mut run, Outcome::Resumed);
    assert_report(&c, 75, TransferState::NoneType, 1);
    wf.apply(&c);
    let c = step(&mut run, Outcome::Resumed);
    assert_execute(&c, Activity::SendNotification, false);
    let c = step(&mut run, ok("SUCCESS"));
    assert_report(&c, 100, TransferState::Finished, 1);
    wf.apply(&c);
    let c = step(&mut run, Outcome::Resumed);
    match c {
        Command::Complete(out) => assert_eq!(out.deposit_response, "example-transfer-id"),
        other => panic!("unexpected {:?}", other),
    }
    assert_eq!(run.phase, Phase::Completed);
    assert!(!run.is_expecting(&Outcome::Resumed));

    let status = wf.query_transfer_status();
    assert_eq!(status.progress_percentage, 100);
    assert_eq!(status.transfer_state, "finished");
    assert_eq!(status.workflow_status, "");
    assert_eq!(status.charge_result.charge_id, "example-transfer-id");
    assert_eq!(status.approval_time, 0);
}

#[test]
fn basic_transfer_propagates_a_failed_deposit() {
    let mut wf = AccountTransferWorkflow::new("AccountTransferWorkflow".to_string());
    let mut run = wf.start("k".to_string(), input());
    step(&mut run, Outcome::Started);
    step(&mut run, ok("SUCCESS"));
    step(&mut run, Outcome::Resumed);
    step(&mut run, ok("SUCCESS"));
    step(&mut run, Outcome::Resumed);
    let c = step(&mut run, Outcome::Failed("account is invalid".to_string()));
    match c {
        Command::Fail(WorkflowFailure::Activity(e)) => assert_eq!(e, "account is invalid"),
        other => panic!("unexpected {:?}", other),
    }
    assert_eq!(run.phase, Phase::Failed);
}

#[test]
fn scenario_reports_running_and_publishes_no_steps_by_default() {
    let mut run = scenario_run("AccountTransferWorkflowAPIDowntime");
    assert!(!run.needs_approval && !run.simulate_bug && !run.advanced_visibility);
    let c = step(&mut run, Outcome::Started);
    assert_execute(&c, Activity::Validate, false);
    let c = step(&mut run, ok("SUCCESS"));
    assert_report(&c, 25, TransferState::Running, 1);
}

#[test]
fn advanced_visibility_publishes_each_step() {
    let mut run = scenario_run(ADVANCED_VISIBILITY);
    assert!(run.advanced_visibility);
    let c = step(&mut run, Outcome::Started);
    assert_execute(&c, Activity::Validate, true);
    assert_eq!(Activity::Validate.search_step().unwrap(), "Validate");
    step(&mut run, ok("SUCCESS"));
    let c = step(&mut run, Outcome::Resumed);
    assert_execute(&c, Activity::Withdraw, true);
    assert_eq!(Activity::Withdraw.search_step().unwrap(), "Withdraw");
    assert_eq!(Activity::Deposit.search_step().unwrap(), "Deposit");
    assert_eq!(Activity::SendNotification.search_step().unwrap(), "Notify");
    assert_eq!(Activity::UndoWithdraw.search_step(), None);
}

#[test]
fn human_in_the_loop_waits_for_approval() {
    let mut run = scenario_run(NEEDS_APPROVAL);
    assert!(run.needs_approval);
    step(&mut run, Outcome::Started);
    step(&mut run, ok("SUCCESS"));
    let c = step(&mut run, Outcome::Resumed);
    assert_report(&c, 30, TransferState::Waiting, 0);
    let c = step(&mut run, Outcome::Resumed);
    match c {
        Command::AwaitApproval { timeout_secs } => assert_eq!(timeout_secs, 30),
        other => panic!("unexpected {:?}", other),
    }
    assert!(!run.is_expecting(&Outcome::Resumed));
    let c = step(&mut run, Outcome::Approved);
    assert_execute(&c, Activity::Withdraw, false);
}

#[test]
fn human_in_the_loop_times_out_without_approval() {
    let mut run = scenario_run(NEEDS_APPROVAL);
    step(&mut run, Outcome::Started);
    step(&mut run, ok("SUCCESS"));
    step(&mut run, Outcome::Resumed);
    step(&mut run, Outcome::Resumed);
    let c = step(&mut run, Outcome::ApprovalTimedOut);
    match c {
        Command::Fail(f) => {
            assert_eq!(f.message(), "Approval not received within 30 seconds");
            assert_eq!(f.failure_type().unwrap(), "ApprovalTimeout");
        }
        other => panic!("unexpected {:?}", other),
    }
    assert_eq!(run.phase, Phase::Failed);
}

#[test]
fn recoverable_failure_crashes_after_withdraw() {
    let mut run = scenario_run(BUG);
    assert!(run.simulate_bug);
    step(&mut run, Outcome::Started);
    step(&mut run, ok("SUCCESS"));
    step(&mut run, Outcome::Resumed);
    let c = step(&mut run, ok("SUCCESS"));
    assert_report(&c, 50, TransferState::Running, 3);
    let c = step(&mut run, Outcome::Resumed);
    assert!(matches!(c, Command::SimulateBug));
    assert_eq!(run.phase, Phase::Crashed);
}

#[test]
fn invalid_account_reverts_the_withdraw() {
    let mut run = scenario_run("AccountTransferWorkflowInvalidAccount");
    step(&mut run, Outcome::Started);
    step(&mut run, ok("SUCCESS"));
    step(&mut run, Outcome::Resumed);
    step(&mut run, ok("SUCCESS"));
    step(&mut run, Outcome::Resumed);
    let c = step(&mut run, Outcome::Failed("Deposit activity failed, account is invalid".to_string()));
    assert_execute(&c, Activity::UndoWithdraw, false);
    assert_eq!(undo_withdraw_reason(), "reverting withdraw");
    let c = step(&mut run, Outcome::Succeeded("true".to_string()));
    match c {
        Command::Fail(f) => {
            assert_eq!(f.message(), "Deposit failed: Deposit activity failed, account is invalid");
            assert_eq!(f.failure_type().unwrap(), "DepositFailed");
        }
        other => panic!("unexpected {:?}", other),
    }
}

#[test]
fn failed_revert_propagates_its_error() {
    let mut run = scenario_run("AccountTransferWorkflowInvalidAccount");
    step(&mut run, Outcome::Started);
    step(&mut run, ok("SUCCESS"));
    step(&mut run, Outcome::Resumed);
    step(&mut run, ok("SUCCESS"));
    step(&mut run, Outcome::Resumed);
    step(&mut run, Outcome::Failed("deposit".to_string()));
    let c = step(&mut run, Outcome::Failed("undo".to_string()));
    match c {
        Command::Fail(f) => {
            assert_eq!(f.message(), "undo");
            assert_eq!(f.failure_type(), None);
        }
        other => panic!("unexpected {:?}", other),
    }
}

#[test]
fn scenario_state_mirrors_the_run() {
    let mut state = ScenarioState::new();
    let mut run = state.start("AccountTransferWorkflowHumanInLoop".to_string(), "k".to_string(), input());
    for outcome in [Outcome::Started, ok("SUCCESS"), Outcome::Resumed] {
        let c = step(&mut run, outcome);
        state.apply(&c);
    }
    assert_eq!(state.progress, 30);
    assert_eq!(state.transfer_state, TransferState::Waiting);
    assert_eq!(run.flavor, Flavor::Scenario);
}

#[test]
fn approval_time_renders_every_digit() {
    let f = WorkflowFailure::ApprovalTimeout { approval_time: 1234567890 };
    assert_eq!(f.message(), "Approval not received within 1234567890 seconds");
    let f = WorkflowFailure::ApprovalTimeout { approval_time: 0 };
    assert_eq!(f.message(), "Approval not received within 0 seconds");
}
