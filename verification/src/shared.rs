//! Values exchanged between the workflows, the activities and the UI.
use vstd::prelude::*;
use vstd::string::StringExecFns;

verus! {

/// Task queue the worker polls unless the environment names another.
pub const TASK_QUEUE: &'static str = "MoneyTransfer";

/// Workflow type whose withdraw API is unavailable for the first attempts.
pub const API_DOWNTIME: &'static str = "AccountTransferWorkflowAPIDowntime";

/// Workflow type whose destination account does not exist.
pub const INVALID_ACCOUNT: &'static str = "AccountTransferWorkflowInvalidAccount";

/// What a client asks to transfer.
#[derive(Clone, Debug)]
pub struct TransferInput {
    pub amount: u32,
    pub from_account: String,
    pub to_account: String,
}

/// What a completed transfer returns.
#[derive(Debug)]
pub struct TransferOutput {
    pub deposit_response: String,
}

/// The charge that the deposit produced.
#[derive(Clone, Debug)]
pub struct DepositResponse {
    pub charge_id: String,
}

impl Default for DepositResponse {
    fn default() -> (r: Self)
        ensures
            r.charge_id@ == Seq::<char>::empty(),
    {
        DepositResponse { charge_id: String::new() }
    }
}

/// What the withdraw and deposit activities receive.
#[derive(Clone, Debug)]
pub struct ActivityInput {
    pub idempotency_key: String,
    pub amount: u64,
    pub workflow_type: String,
}

impl Default for ActivityInput {
    fn default() -> (r: Self)
        ensures
            r.idempotency_key@ == Seq::<char>::empty(),
            r.amount == 0,
            r.workflow_type@ == Seq::<char>::empty(),
    {
        ActivityInput { idempotency_key: String::new(), amount: 0, workflow_type: String::new() }
    }
}

/// What the `transferStatus` query answers.
#[derive(Clone, Debug)]
pub struct TransferStatus {
    pub progress_percentage: u64,
    pub transfer_state: String,
    pub workflow_status: String,
    pub charge_result: DepositResponse,
    pub approval_time: u64,
}

impl Default for TransferStatus {
    fn default() -> (r: Self)
        ensures
            r.progress_percentage == 0,
            r.transfer_state@ == Seq::<char>::empty(),
            r.workflow_status@ == Seq::<char>::empty(),
            r.charge_result.charge_id@ == Seq::<char>::empty(),
            r.approval_time == 0,
    {
        TransferStatus {
            progress_percentage: 0,
            transfer_state: String::new(),
            workflow_status: String::new(),
            charge_result: DepositResponse::default(),
            approval_time: 0,
        }
    }
}

/// Where a transfer stands, as the UI shows it.
#[derive(Clone, Copy, Debug, PartialEq, Eq, Structural)]
pub enum TransferState {
    NoneType,
    Waiting,
    Running,
    Finished,
}

impl Default for TransferState {
    fn default() -> (r: Self)
        ensures
            r == TransferState::NoneType,
    {
        TransferState::NoneType
    }
}

/// The text the UI shows for a transfer state.
pub open spec fn transfer_state_text(state: TransferState) -> Seq<char> {
    match state {
        TransferState::NoneType => Seq::empty(),
        TransferState::Waiting => "waiting"@,
        TransferState::Running => "running"@,
        TransferState::Finished => "finished"@,
    }
}

impl TransferState {
    /// The state's display text: empty before the transfer starts, then
    /// `waiting`, `running` or `finished`.
    pub fn to_string(&self) -> (s: String)
        ensures
            s@ == transfer_state_text(*self),
    {
        match self {
            TransferState::NoneType => String::new(),
            TransferState::Waiting => String::from_str("waiting"),
            TransferState::Running => String::from_str("running"),
            TransferState::Finished => String::from_str("finished"),
        }
    }
}

} // verus!
