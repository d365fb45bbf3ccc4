//! The scenario transfer workflows: the same transfer, with a twist chosen by
//! the workflow type (human approval, published steps, a bug, an unavailable
//! API, an invalid account), and the signal, update and query handlers they
//! share.
use vstd::prelude::*;
use vstd::string::StringExecFns;

use crate::account_transfer_workflow::status_of;
use crate::shared::{DepositResponse, TransferInput, TransferState, TransferStatus};
use crate::transfer::{Command, Flavor, Outcome, Phase, TransferRun};

verus! {

/// The state that a scenario workflow keeps and its handlers read and change.
pub struct ScenarioState {
    pub progress: u64,
    pub deposit_response: DepositResponse,
    pub transfer_state: TransferState,
    pub approval_time: u64,
    pub approved: bool,
}

/// Why an approval update is refused.
#[derive(Clone, Copy, Debug, PartialEq, Eq, Structural)]
pub enum ApprovalRejection {
    /// The transfer was approved before.
    AlreadyApproved,
    /// The transfer does not wait for approval.
    NotAwaitingApproval,
}

impl ApprovalRejection {
    /// The message that the refused update answers with.
    pub fn message(&self) -> (m: String)
        ensures
            *self == ApprovalRejection::AlreadyApproved ==> m@
                == "Validation Failed: Transfer already approved"@,
            *self == ApprovalRejection::NotAwaitingApproval ==> m@
                == "Validation Failed: Transfer doesn't require approval"@,
    {
        match self {
            ApprovalRejection::AlreadyApproved => String::from_str(
                "Validation Failed: Transfer already approved",
            ),
            ApprovalRejection::NotAwaitingApproval => String::from_str(
                "Validation Failed: Transfer doesn't require approval",
            ),
        }
    }
}

/// An approval update is accepted: the transfer waits for approval and has
/// not been approved.
pub open spec fn approval_update_allowed(state: ScenarioState) -> bool {
    !state.approved && state.transfer_state == TransferState::Waiting
}

/// The state after the `approveTransfer` signal: approved if the transfer
/// was waiting for approval, unchanged otherwise.
pub open spec fn after_approval_signal(state: ScenarioState) -> ScenarioState {
    if state.transfer_state == TransferState::Waiting {
        ScenarioState { approved: true, ..state }
    } else {
        state
    }
}

impl ScenarioState {
    /// A scenario that has not started: nothing done, thirty seconds to
    /// approve, not approved.
    pub fn new() -> (s: Self)
        ensures
            s.progress == 0,
            s.deposit_response.charge_id@ == Seq::<char>::empty(),
            s.transfer_state == TransferState::NoneType,
            s.approval_time == 30,
            !s.approved,
    {
        ScenarioState {
            progress: 0,
            deposit_response: DepositResponse::default(),
            transfer_state: TransferState::NoneType,
            approval_time: 30,
            approved: false,
        }
    }

    /// The state mirrors the run's progress, state and charge.
    pub open spec fn mirrors(self, run: TransferRun) -> bool {
        &&& self.progress == run.progress
        &&& self.transfer_state == run.transfer_state
        &&& self.deposit_response.charge_id@ == run.charge_id@
        &&& self.approval_time == run.approval_time
    }

    /// Starts the run of a scenario workflow of type `workflow_type`, with
    /// the idempotency key that the runtime generated for it.
    pub fn start(&self, workflow_type: String, idempotency_key: String, input: TransferInput) -> (run:
        TransferRun)
        ensures
            run.wf(),
            run.phase == Phase::Start,
            run.flavor == Flavor::Scenario,
            run.workflow_type == workflow_type,
            run.input == input,
            run.activity_input.idempotency_key == idempotency_key,
            run.approval_time == self.approval_time,
            self.progress == 0 && self.transfer_state == TransferState::NoneType
                && self.deposit_response.charge_id@ == Seq::<char>::empty() ==> self.mirrors(run),
    {
        TransferRun::new(Flavor::Scenario, workflow_type, idempotency_key, input, self.approval_time)
    }

    /// Records the progress and the transfer state.
    pub fn update_progress_status(&mut self, progress: u64, transfer_state: TransferState)
        ensures
            *final(self) == (ScenarioState { progress, transfer_state, ..*old(self) }),
    {
        self.progress = progress;
        self.transfer_state = transfer_state;
    }

    /// Records the progress of a transfer under way.
    pub fn update_progress(&mut self, progress: u64)
        ensures
            *final(self) == (ScenarioState {
                progress,
                transfer_state: TransferState::Running,
                ..*old(self)
            }),
    {
        self.update_progress_status(progress, TransferState::Running);
    }

    /// The state after recording what `cmd` says of it: the progress that it
    /// reports or the charge that it records. Other commands leave it alone.
    pub open spec fn applied(self, cmd: Command) -> Self {
        match cmd {
            Command::ReportProgress { progress, transfer_state, .. } => ScenarioState {
                progress,
                transfer_state,
                ..self
            },
            Command::RecordDeposit(d) => ScenarioState { deposit_response: d, ..self },
            _ => self,
        }
    }

    /// Records what a command says of the state.
    pub fn apply(&mut self, cmd: &Command)
        ensures
            *final(self) == old(self).applied(*cmd),
    {
        match cmd {
            Command::ReportProgress { progress, transfer_state, .. } => {
                self.update_progress_status(*progress, *transfer_state);
            },
            Command::RecordDeposit(d) => {
                self.deposit_response = DepositResponse { charge_id: d.charge_id.clone() };
            },
            _ => {},
        }
    }
}

/// The `approveTransfer` signal: approves the transfer if it waits for
/// approval, and is ignored otherwise.
pub fn handle_approve_transfer_signal(state: &mut ScenarioState)
    ensures
        *final(state) == after_approval_signal(*old(state)),
{
    if state.transfer_state == TransferState::Waiting {
        state.approved = true;
    }
}

/// The `approveTransferUpdate` update, once validated: approves the transfer.
pub fn handle_approve_transfer_update(state: &mut ScenarioState) -> (answer: String)
    ensures
        *final(state) == (ScenarioState { approved: true, ..*old(state) }),
        answer@ == "successfully approved transfer"@,
{
    state.approved = true;
    String::from_str("successfully approved transfer")
}

/// Validates an `approveTransferUpdate`: refused if the transfer was approved
/// before or does not wait for approval.
pub fn validate_approve_transfer_update(state: &ScenarioState) -> (r: Result<(), ApprovalRejection>)
    ensures
        r is Ok <==> approval_update_allowed(*state),
        r == Err::<(), ApprovalRejection>(ApprovalRejection::AlreadyApproved) <==> state.approved,
        r == Err::<(), ApprovalRejection>(ApprovalRejection::NotAwaitingApproval) <==> !state.approved
            && state.transfer_state != TransferState::Waiting,
{
    if state.approved {
        return Err(ApprovalRejection::AlreadyApproved);
    }
    if state.transfer_state != TransferState::Waiting {
        return Err(ApprovalRejection::NotAwaitingApproval);
    }
    Ok(())
}

/// The `transferStatus` query: progress, the state's text, the charge and the
/// approval time.
pub fn handle_transfer_status_query(state: &ScenarioState) -> (status: TransferStatus)
    ensures
        status_of(
            status,
            state.progress,
            state.transfer_state,
            state.deposit_response,
            state.approval_time,
        ),
{
    TransferStatus {
        progress_percentage: state.progress,
        transfer_state: state.transfer_state.to_string(),
        workflow_status: String::new(),
        charge_result: DepositResponse { charge_id: state.deposit_response.charge_id.clone() },
        approval_time: state.approval_time,
    }
}

/// A transfer is approved only while it waits for approval: the signal
/// changes nothing otherwise, and the update is refused otherwise.
pub proof fn lemma_approval_only_while_waiting(state: ScenarioState)
    ensures
        after_approval_signal(state).approved != state.approved ==> state.transfer_state
            == TransferState::Waiting,
        approval_update_allowed(state) ==> state.transfer_state == TransferState::Waiting,
        after_approval_signal(state).progress == state.progress,
        after_approval_signal(state).transfer_state == state.transfer_state,
{
}

/// Once a transfer is approved, by signal or by update, a further approval
/// update is refused as already approved.
pub proof fn lemma_second_approval_refused(state: ScenarioState)
    ensures
        state.transfer_state == TransferState::Waiting ==> !approval_update_allowed(
            after_approval_signal(state),
        ),
        !approval_update_allowed(ScenarioState { approved: true, ..state }),
{
}

/// A scenario state that mirrors its run keeps mirroring it when it records
/// each command the run issues, so its query always reports the run's
/// progress, state, charge and approval time.
pub proof fn lemma_applied_commands_keep_mirror(
    state: ScenarioState,
    run: TransferRun,
    outcome: Outcome,
)
    requires
        run.wf(),
        run.accepts(outcome),
        state.mirrors(run),
    ensures
        state.applied(run.next(outcome).1).mirrors(run.next(outcome).0),
{
}

} // verus!
