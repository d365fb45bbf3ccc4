//! The plain transfer workflow: validate, withdraw, deposit, notify.
use vstd::prelude::*;

use crate::activities::{transfer_retry_policy, AccountTransferActivities, RetryPolicy};
use crate::shared::{
    transfer_state_text, DepositResponse, TransferInput, TransferState, TransferStatus,
};
use crate::transfer::{Command, Flavor, Outcome, TransferRun};

verus! {

/// The state that the plain transfer workflow keeps and its query reads.
pub struct AccountTransferWorkflow {
    pub progress: u64,
    pub transfer_state: TransferState,
    pub deposit_response: DepositResponse,
    pub sched_to_close_timeout: u64,
    pub idempotency_key: String,
    pub workflow_type: String,
    pub retry_policy: RetryPolicy,
}

/// The status that a query answers for `progress`, `transfer_state`,
/// `charge` and `approval_time`.
pub open spec fn status_of(
    status: TransferStatus,
    progress: u64,
    transfer_state: TransferState,
    charge: DepositResponse,
    approval_time: u64,
) -> bool {
    &&& status.progress_percentage == progress
    &&& status.transfer_state@ == transfer_state_text(transfer_state)
    &&& status.workflow_status@ == Seq::<char>::empty()
    &&& status.charge_result == charge
    &&& status.approval_time == approval_time
}

/// A status query shows the transfer state as its text: `waiting` exactly
/// when the transfer waits for approval, `running` exactly while it runs,
/// `finished` exactly once it finished, and nothing before it started; the
/// progress, charge and approval time are shown as they are.
pub proof fn lemma_status_shows_state_text(
    status: TransferStatus,
    progress: u64,
    transfer_state: TransferState,
    charge: DepositResponse,
    approval_time: u64,
)
    requires
        status_of(status, progress, transfer_state, charge, approval_time),
    ensures
        status.transfer_state@ == "waiting"@ <==> transfer_state == TransferState::Waiting,
        status.transfer_state@ == "running"@ <==> transfer_state == TransferState::Running,
        status.transfer_state@ == "finished"@ <==> transfer_state == TransferState::Finished,
        status.transfer_state@.len() == 0 <==> transfer_state == TransferState::NoneType,
        status.progress_percentage == progress,
        status.charge_result == charge,
        status.approval_time == approval_time,
{
    reveal_strlit("waiting");
    reveal_strlit("running");
    reveal_strlit("finished");
    assert("waiting"@[0] != "running"@[0]);
    assert("waiting"@.len() != "finished"@.len());
    assert("running"@.len() != "finished"@.len());
}

impl AccountTransferWorkflow {
    /// The state of a new workflow of type `workflow_type`.
    pub fn new(workflow_type: String) -> (w: Self)
        ensures
            w.progress == 0,
            w.transfer_state == TransferState::NoneType,
            w.deposit_response.charge_id@ == Seq::<char>::empty(),
            w.sched_to_close_timeout == 0,
            w.idempotency_key@ == Seq::<char>::empty(),
            w.workflow_type == workflow_type,
            w.retry_policy == transfer_retry_policy(),
    {
        AccountTransferWorkflow {
            progress: 0,
            transfer_state: TransferState::NoneType,
            deposit_response: DepositResponse::default(),
            sched_to_close_timeout: 0,
            idempotency_key: String::new(),
            workflow_type,
            retry_policy: AccountTransferActivities::get_retry_policy(),
        }
    }

    /// The workflow's state mirrors the run's progress, state and charge.
    pub open spec fn mirrors(self, run: TransferRun) -> bool {
        &&& self.progress == run.progress
        &&& self.transfer_state == run.transfer_state
        &&& self.deposit_response.charge_id@ == run.charge_id@
    }

    /// Starts the run of this workflow, with the idempotency key that the
    /// runtime generated for it.
    pub fn start(&mut self, idempotency_key: String, input: TransferInput) -> (run: TransferRun)
        ensures
            run.wf(),
            run.phase == crate::transfer::Phase::Start,
            run.flavor == Flavor::Basic,
            run.workflow_type == old(self).workflow_type,
            run.input == input,
            run.activity_input.idempotency_key == idempotency_key,
            final(self).idempotency_key == idempotency_key,
            final(self).workflow_type == old(self).workflow_type,
            final(self).progress == old(self).progress,
            final(self).transfer_state == old(self).transfer_state,
            final(self).deposit_response == old(self).deposit_response,
            old(self).progress == 0 && old(self).transfer_state == TransferState::NoneType
                && old(self).deposit_response.charge_id@ == Seq::<char>::empty()
                ==> final(self).mirrors(run),
    {
        self.idempotency_key = idempotency_key.clone();
        TransferRun::new(Flavor::Basic, self.workflow_type.clone(), idempotency_key, input, 0)
    }

    /// Records the progress and the transfer state.
    pub fn update_progress(&mut self, progress: u64, transfer_state: TransferState)
        ensures
            *final(self) == (AccountTransferWorkflow { progress, transfer_state, ..*old(self) }),
    {
        self.progress = progress;
        self.transfer_state = transfer_state;
    }

    /// The state after recording what `cmd` says of it: the progress that it
    /// reports or the charge that it records. Other commands leave it alone.
    pub open spec fn applied(self, cmd: Command) -> Self {
        match cmd {
            Command::ReportProgress { progress, transfer_state, .. } => AccountTransferWorkflow {
                progress,
                transfer_state,
                ..self
            },
            Command::RecordDeposit(d) => AccountTransferWorkflow { deposit_response: d, ..self },
            _ => self,
        }
    }

    /// Records what a command says of the workflow's state.
    pub fn apply(&mut self, cmd: &Command)
        ensures
            *final(self) == old(self).applied(*cmd),
    {
        match cmd {
            Command::ReportProgress { progress, transfer_state, .. } => {
                self.update_progress(*progress, *transfer_state);
            },
            Command::RecordDeposit(d) => {
                self.deposit_response = DepositResponse { charge_id: d.charge_id.clone() };
            },
            _ => {},
        }
    }

    /// The `transferStatus` query: the progress, the state's text and the
    /// charge; the plain workflow has no approval time.
    pub fn query_transfer_status(&self) -> (status: TransferStatus)
        ensures
            status_of(status, self.progress, self.transfer_state, self.deposit_response, 0),
    {
        TransferStatus {
            progress_percentage: self.progress,
            transfer_state: self.transfer_state.to_string(),
            workflow_status: String::new(),
            charge_result: DepositResponse { charge_id: self.deposit_response.charge_id.clone() },
            approval_time: 0,
        }
    }
}

/// A workflow whose state mirrors its run keeps mirroring it when it records
/// each command the run issues, so its query always reports the run's
/// progress, state and charge.
pub proof fn lemma_applied_commands_keep_mirror(
    w: AccountTransferWorkflow,
    run: TransferRun,
    outcome: Outcome,
)
    requires
        run.wf(),
        run.accepts(outcome),
        w.mirrors(run),
    ensures
        w.applied(run.next(outcome).1).mirrors(run.next(outcome).0),
{
}

} // verus!
