//! The decisions of a money transfer run, as a state machine.
//!
//! A workflow run alternates between work that only the Temporal runtime can
//! do (activities, timers, waiting for a signal) and decisions about what to
//! do next. The decisions live here: [`TransferRun::step`] takes what came of
//! the previous command and answers with the next command. The worker performs
//! the command and reports its outcome back.
use vstd::prelude::*;
use vstd::pervasive::unreached;
use vstd::string::StringExecFns;

use crate::shared::{ActivityInput, DepositResponse, TransferInput, TransferOutput, TransferState};

verus! {

/// Workflow type of the scenario that fails on purpose after the withdraw.
pub const BUG: &'static str = "AccountTransferWorkflowRecoverableFailure";

/// Workflow type of the scenario that waits for a human approval.
pub const NEEDS_APPROVAL: &'static str = "AccountTransferWorkflowHumanInLoop";

/// Workflow type of the scenario that publishes its step as a search attribute.
pub const ADVANCED_VISIBILITY: &'static str = "AccountTransferWorkflowAdvancedVisibility";

/// Which of the two workflow programs a run follows.
#[derive(Clone, Copy, Debug, PartialEq, Eq, Structural)]
pub enum Flavor {
    /// The plain transfer (`AccountTransferWorkflow`).
    Basic,
    /// The scenario transfer, whose behavior depends on its workflow type.
    Scenario,
}

/// Where a run stands: which outcome it waits for.
#[derive(Clone, Copy, Debug, PartialEq, Eq, Structural)]
pub enum Phase {
    Start,
    Validating,
    Validated,
    ApprovalRequested,
    AwaitingApproval,
    Withdrawing,
    Withdrawn,
    Depositing,
    Compensating,
    DepositReceived,
    Deposited,
    Notifying,
    Notified,
    Completed,
    Failed,
    Crashed,
}

/// The activities a run asks the worker to execute.
#[derive(Clone, Copy, Debug, PartialEq, Eq, Structural)]
pub enum Activity {
    /// `validate`, with the run's transfer input.
    Validate,
    /// `withdraw`, with the run's activity input.
    Withdraw,
    /// `deposit`, with the run's activity input.
    Deposit,
    /// `send_notification`, with the run's transfer input.
    SendNotification,
    /// `undo_withdraw`, with [`undo_withdraw_reason`].
    UndoWithdraw,
}

/// What came of the command that a run issued last.
#[derive(Debug)]
pub enum Outcome {
    /// The run has just been created.
    Started,
    /// The activity returned this value.
    Succeeded(String),
    /// The activity failed; the text describes the error.
    Failed(String),
    /// The progress was recorded (and its timer, if any, fired).
    Resumed,
    /// The transfer was approved before the approval timer fired.
    Approved,
    /// The approval timer fired first.
    ApprovalTimedOut,
}

/// Why a run ends in failure.
#[derive(Debug)]
pub enum WorkflowFailure {
    /// An activity failed; the worker propagates its error unchanged.
    Activity(String),
    /// No approval arrived within this many seconds.
    ApprovalTimeout { approval_time: u64 },
    /// The deposit failed with this error and the withdraw was reverted.
    DepositFailed { cause: String },
}

/// The decimal digit character for `d`.
pub open spec fn digit_char(d: nat) -> char {
    (48 + d) as char
}

/// The decimal text of `n`, without leading zeros.
pub open spec fn decimal_text(n: nat) -> Seq<char>
    decreases n,
{
    if n < 10 {
        seq![digit_char(n)]
    } else {
        decimal_text(n / 10) + seq![digit_char(n % 10)]
    }
}

/// The text of one decimal digit.
fn digit_text(d: u64) -> (s: &'static str)
    requires
        d < 10,
    ensures
        s@ == seq![digit_char(d as nat)],
{
    proof {
        reveal_strlit("0");
        reveal_strlit("1");
        reveal_strlit("2");
        reveal_strlit("3");
        reveal_strlit("4");
        reveal_strlit("5");
        reveal_strlit("6");
        reveal_strlit("7");
        reveal_strlit("8");
        reveal_strlit("9");
    }
    let s = if d == 0 {
        "0"
    } else if d == 1 {
        "1"
    } else if d == 2 {
        "2"
    } else if d == 3 {
        "3"
    } else if d == 4 {
        "4"
    } else if d == 5 {
        "5"
    } else if d == 6 {
        "6"
    } else if d == 7 {
        "7"
    } else if d == 8 {
        "8"
    } else {
        "9"
    };
    assert(s@ =~= seq![digit_char(d as nat)]);
    s
}

/// Appends the decimal text of `n`.
fn append_decimal(text: &mut String, n: u64)
    ensures
        final(text)@ == old(text)@ + decimal_text(n as nat),
    decreases n,
{
    if n >= 10 {
        append_decimal(text, n / 10);
    }
    text.append(digit_text(n % 10));
    assert(final(text)@ =~= old(text)@ + decimal_text(n as nat));
}

impl WorkflowFailure {
    /// The failure's message.
    pub fn message(&self) -> (m: String)
        ensures
            match *self {
                WorkflowFailure::Activity(e) => m@ == e@,
                WorkflowFailure::ApprovalTimeout { approval_time } => m@
                    == "Approval not received within "@ + decimal_text(approval_time as nat)
                    + " seconds"@,
                WorkflowFailure::DepositFailed { cause } => m@ == "Deposit failed: "@ + cause@,
            },
    {
        match self {
            WorkflowFailure::Activity(e) => e.clone(),
            WorkflowFailure::ApprovalTimeout { approval_time } => {
                let mut m = String::from_str("Approval not received within ");
                append_decimal(&mut m, *approval_time);
                m.append(" seconds");
                m
            },
            WorkflowFailure::DepositFailed { cause } => {
                let mut m = String::from_str("Deposit failed: ");
                m.append(cause.as_str());
                m
            },
        }
    }

    /// The workflow's own failures are not retried; an activity's error
    /// keeps the retry setting it came with.
    pub fn non_retryable(&self) -> (b: bool)
        ensures
            b == !(*self is Activity),
    {
        match self {
            WorkflowFailure::Activity(_) => false,
            _ => true,
        }
    }

    /// The application failure type that the workflow fails with; an
    /// activity's own error is propagated as it is.
    pub fn failure_type(&self) -> (t: Option<String>)
        ensures
            match *self {
                WorkflowFailure::Activity(_) => t is None,
                WorkflowFailure::ApprovalTimeout { .. } => t matches Some(n) && n@
                    == "ApprovalTimeout"@,
                WorkflowFailure::DepositFailed { .. } => t matches Some(n) && n@
                    == "DepositFailed"@,
            },
    {
        match self {
            WorkflowFailure::Activity(_) => None,
            WorkflowFailure::ApprovalTimeout { .. } => Some(String::from_str("ApprovalTimeout")),
            WorkflowFailure::DepositFailed { .. } => Some(String::from_str("DepositFailed")),
        }
    }
}

/// What a run asks the worker to do next.
#[derive(Debug)]
pub enum Command {
    /// Execute the activity; first publish its search step when `publish_step`.
    Execute { activity: Activity, publish_step: bool },
    /// Record the progress, then sleep this many seconds (none when zero).
    ReportProgress { progress: u64, transfer_state: TransferState, sleep_secs: u64 },
    /// Record the deposit's charge.
    RecordDeposit(DepositResponse),
    /// Wait for an approval, at most this many seconds.
    AwaitApproval { timeout_secs: u64 },
    /// Fail the workflow task (the scenario's deliberate bug).
    SimulateBug,
    /// Complete the workflow with this result.
    Complete(TransferOutput),
    /// Fail the workflow.
    Fail(WorkflowFailure),
}

/// The state of one transfer run.
pub struct TransferRun {
    pub flavor: Flavor,
    pub phase: Phase,
    pub workflow_type: String,
    pub input: TransferInput,
    pub activity_input: ActivityInput,
    pub approval_time: u64,
    pub needs_approval: bool,
    pub simulate_bug: bool,
    pub advanced_visibility: bool,
    pub progress: u64,
    pub transfer_state: TransferState,
    pub charge_id: String,
    pub deposit_error: String,
}

/// The transfer state while a run is under way: the plain transfer leaves it
/// unset until it finishes, the scenarios show `running`.
pub open spec fn running_state(flavor: Flavor) -> TransferState {
    match flavor {
        Flavor::Basic => TransferState::NoneType,
        Flavor::Scenario => TransferState::Running,
    }
}

/// The search step published before an activity, when the run publishes steps.
pub open spec fn search_step_text(activity: Activity) -> Option<Seq<char>> {
    match activity {
        Activity::Validate => Some("Validate"@),
        Activity::Withdraw => Some("Withdraw"@),
        Activity::Deposit => Some("Deposit"@),
        Activity::SendNotification => Some("Notify"@),
        Activity::UndoWithdraw => None,
    }
}

impl Activity {
    /// The search attribute value that names this activity's step, if it has one.
    pub fn search_step(&self) -> (s: Option<String>)
        ensures
            match s {
                Some(t) => search_step_text(*self) == Some(t@),
                None => search_step_text(*self) is None,
            },
    {
        match self {
            Activity::Validate => Some(String::from_str("Validate")),
            Activity::Withdraw => Some(String::from_str("Withdraw")),
            Activity::Deposit => Some(String::from_str("Deposit")),
            Activity::SendNotification => Some(String::from_str("Notify")),
            Activity::UndoWithdraw => None,
        }
    }
}

/// The message that `undo_withdraw` receives.
pub fn undo_withdraw_reason() -> (s: String)
    ensures
        s@ == "reverting withdraw"@,
{
    String::from_str("reverting withdraw")
}

impl TransferRun {
    /// The run waits for this outcome in its current phase.
    pub open spec fn accepts(self, outcome: Outcome) -> bool {
        match self.phase {
            Phase::Start => outcome is Started,
            Phase::Validating | Phase::Withdrawing | Phase::Depositing | Phase::Compensating
            | Phase::Notifying => outcome is Succeeded || outcome is Failed,
            Phase::Validated | Phase::ApprovalRequested | Phase::Withdrawn
            | Phase::DepositReceived | Phase::Deposited | Phase::Notified => outcome is Resumed,
            Phase::AwaitingApproval => outcome is Approved || outcome is ApprovalTimedOut,
            Phase::Completed | Phase::Failed | Phase::Crashed => false,
        }
    }

    /// The run has ended: it completed, failed or crashed.
    pub open spec fn is_finished(self) -> bool {
        self.phase == Phase::Completed || self.phase == Phase::Failed || self.phase == Phase::Crashed
    }

    /// The run's recorded progress and state agree with its phase.
    pub open spec fn progress_fits_phase(self) -> bool {
        let rs = running_state(self.flavor);
        match self.phase {
            Phase::Start | Phase::Validating => self.progress == 0 && self.transfer_state
                == TransferState::NoneType,
            Phase::Validated => self.progress == 25 && self.transfer_state == rs,
            Phase::ApprovalRequested | Phase::AwaitingApproval => self.needs_approval
                && self.progress == 30 && self.transfer_state == TransferState::Waiting,
            Phase::Withdrawing => if self.needs_approval {
                self.progress == 30 && self.transfer_state == TransferState::Waiting
            } else {
                self.progress == 25 && self.transfer_state == rs
            },
            Phase::Withdrawn => self.progress == 50 && self.transfer_state == rs,
            Phase::Depositing | Phase::DepositReceived => !self.simulate_bug && self.progress == 50
                && self.transfer_state == rs,
            Phase::Compensating => self.flavor == Flavor::Scenario && !self.simulate_bug
                && self.progress == 50 && self.transfer_state == rs,
            Phase::Crashed => self.simulate_bug && self.progress == 50 && self.transfer_state
                == rs,
            Phase::Deposited | Phase::Notifying => !self.simulate_bug && self.progress == 75
                && self.transfer_state == rs,
            Phase::Notified | Phase::Completed => !self.simulate_bug && self.progress == 100
                && self.transfer_state == TransferState::Finished,
            Phase::Failed => self.progress <= 75 && self.transfer_state != TransferState::Finished,
        }
    }

    /// Well-formedness: the scenario switches follow the workflow type, the
    /// activity input follows the transfer input, and the progress follows
    /// the phase.
    pub open spec fn wf(self) -> bool {
        let scenario = self.flavor == Flavor::Scenario;
        &&& self.needs_approval == (scenario && self.workflow_type@ == NEEDS_APPROVAL@)
        &&& self.simulate_bug == (scenario && self.workflow_type@ == BUG@)
        &&& self.advanced_visibility == (scenario && self.workflow_type@ == ADVANCED_VISIBILITY@)
        &&& self.activity_input.amount == self.input.amount as u64
        &&& self.activity_input.workflow_type == self.workflow_type
        &&& self.progress_fits_phase()
    }

    /// The run after `outcome`, and the command it issues.
    pub open spec fn next(self, outcome: Outcome) -> (TransferRun, Command) {
        let rs = running_state(self.flavor);
        let publish = self.advanced_visibility;
        match self.phase {
            Phase::Start => (
                TransferRun { phase: Phase::Validating, ..self },
                Command::Execute { activity: Activity::Validate, publish_step: publish },
            ),
            Phase::Validating => match outcome {
                Outcome::Succeeded(_) => (
                    TransferRun { phase: Phase::Validated, progress: 25, transfer_state: rs, ..self },
                    Command::ReportProgress { progress: 25, transfer_state: rs, sleep_secs: 1 },
                ),
                Outcome::Failed(e) => (
                    TransferRun { phase: Phase::Failed, ..self },
                    Command::Fail(WorkflowFailure::Activity(e)),
                ),
                _ => (self, arbitrary()),
            },
            Phase::Validated => if self.needs_approval {
                (
                    TransferRun {
                        phase: Phase::ApprovalRequested,
                        progress: 30,
                        transfer_state: TransferState::Waiting,
                        ..self
                    },
                    Command::ReportProgress {
                        progress: 30,
                        transfer_state: TransferState::Waiting,
                        sleep_secs: 0,
                    },
                )
            } else {
                (
                    TransferRun { phase: Phase::Withdrawing, ..self },
                    Command::Execute { activity: Activity::Withdraw, publish_step: publish },
                )
            },
            Phase::ApprovalRequested => (
                TransferRun { phase: Phase::AwaitingApproval, ..self },
                Command::AwaitApproval { timeout_secs: self.approval_time },
            ),
            Phase::AwaitingApproval => match outcome {
                Outcome::Approved => (
                    TransferRun { phase: Phase::Withdrawing, ..self },
                    Command::Execute { activity: Activity::Withdraw, publish_step: publish },
                ),
                _ => (
                    TransferRun { phase: Phase::Failed, ..self },
                    Command::Fail(
                        WorkflowFailure::ApprovalTimeout { approval_time: self.approval_time },
                    ),
                ),
            },
            Phase::Withdrawing => match outcome {
                Outcome::Succeeded(_) => (
                    TransferRun { phase: Phase::Withdrawn, progress: 50, transfer_state: rs, ..self },
                    Command::ReportProgress { progress: 50, transfer_state: rs, sleep_secs: 3 },
                ),
                Outcome::Failed(e) => (
                    TransferRun { phase: Phase::Failed, ..self },
                    Command::Fail(WorkflowFailure::Activity(e)),
                ),
                _ => (self, arbitrary()),
            },
            Phase::Withdrawn => if self.simulate_bug {
                (TransferRun { phase: Phase::Crashed, ..self }, Command::SimulateBug)
            } else {
                (
                    TransferRun { phase: Phase::Depositing, ..self },
                    Command::Execute { activity: Activity::Deposit, publish_step: publish },
                )
            },
            Phase::Depositing => match outcome {
                Outcome::Succeeded(c) => (
                    TransferRun { phase: Phase::DepositReceived, charge_id: c, ..self },
                    Command::RecordDeposit(DepositResponse { charge_id: c }),
                ),
                Outcome::Failed(e) => if self.flavor == Flavor::Scenario {
                    (
                        TransferRun { phase: Phase::Compensating, deposit_error: e, ..self },
                        Command::Execute { activity: Activity::UndoWithdraw, publish_step: false },
                    )
                } else {
                    (
                        TransferRun { phase: Phase::Failed, ..self },
                        Command::Fail(WorkflowFailure::Activity(e)),
                    )
                },
                _ => (self, arbitrary()),
            },
            Phase::Compensating => match outcome {
                Outcome::Succeeded(_) => (
                    TransferRun { phase: Phase::Failed, ..self },
                    Command::Fail(WorkflowFailure::DepositFailed { cause: self.deposit_error }),
                ),
                Outcome::Failed(e) => (
                    TransferRun { phase: Phase::Failed, ..self },
                    Command::Fail(WorkflowFailure::Activity(e)),
                ),
                _ => (self, arbitrary()),
            },
            Phase::DepositReceived => (
                TransferRun { phase: Phase::Deposited, progress: 75, transfer_state: rs, ..self },
                Command::ReportProgress { progress: 75, transfer_state: rs, sleep_secs: 1 },
            ),
            Phase::Deposited => (
                TransferRun { phase: Phase::Notifying, ..self },
                Command::Execute { activity: Activity::SendNotification, publish_step: publish },
            ),
            Phase::Notifying => match outcome {
                Outcome::Succeeded(_) => (
                    TransferRun {
                        phase: Phase::Notified,
                        progress: 100,
                        transfer_state: TransferState::Finished,
                        ..self
                    },
                    Command::ReportProgress {
                        progress: 100,
                        transfer_state: TransferState::Finished,
                        sleep_secs: 1,
                    },
                ),
                Outcome::Failed(e) => (
                    TransferRun { phase: Phase::Failed, ..self },
                    Command::Fail(WorkflowFailure::Activity(e)),
                ),
                _ => (self, arbitrary()),
            },
            Phase::Notified => (
                TransferRun { phase: Phase::Completed, ..self },
                Command::Complete(TransferOutput { deposit_response: self.charge_id }),
            ),
            Phase::Completed | Phase::Failed | Phase::Crashed => (self, arbitrary()),
        }
    }

    /// A new run of `flavor` for a workflow of type `workflow_type`, whose
    /// activities use `idempotency_key`. A run that waits for approval waits
    /// at most `approval_time` seconds.
    pub fn new(
        flavor: Flavor,
        workflow_type: String,
        idempotency_key: String,
        input: TransferInput,
        approval_time: u64,
    ) -> (run: Self)
        ensures
            run.wf(),
            run.phase == Phase::Start,
            run.flavor == flavor,
            run.workflow_type == workflow_type,
            run.input == input,
            run.activity_input == (ActivityInput {
                idempotency_key,
                amount: input.amount as u64,
                workflow_type,
            }),
            run.approval_time == approval_time,
            run.progress == 0,
            run.transfer_state == TransferState::NoneType,
            run.charge_id@ == Seq::<char>::empty(),
    {
        let scenario = match flavor {
            Flavor::Basic => false,
            Flavor::Scenario => true,
        };
        let needs_approval = scenario && workflow_type == String::from_str(NEEDS_APPROVAL);
        let simulate_bug = scenario && workflow_type == String::from_str(BUG);
        let advanced_visibility = scenario && workflow_type == String::from_str(
            ADVANCED_VISIBILITY,
        );
        let activity_input = ActivityInput {
            idempotency_key,
            amount: input.amount as u64,
            workflow_type: workflow_type.clone(),
        };
        TransferRun {
            flavor,
            phase: Phase::Start,
            workflow_type,
            input,
            activity_input,
            approval_time,
            needs_approval,
            simulate_bug,
            advanced_visibility,
            progress: 0,
            transfer_state: TransferState::NoneType,
            charge_id: String::new(),
            deposit_error: String::new(),
        }
    }

    /// Whether the run waits for `outcome` now.
    pub fn is_expecting(&self, outcome: &Outcome) -> (b: bool)
        ensures
            b == self.accepts(*outcome),
    {
        match self.phase {
            Phase::Start => matches!(outcome, Outcome::Started),
            Phase::Validating | Phase::Withdrawing | Phase::Depositing | Phase::Compensating
            | Phase::Notifying => matches!(outcome, Outcome::Succeeded(_) | Outcome::Failed(_)),
            Phase::Validated | Phase::ApprovalRequested | Phase::Withdrawn
            | Phase::DepositReceived | Phase::Deposited | Phase::Notified => matches!(
                outcome,
                Outcome::Resumed
            ),
            Phase::AwaitingApproval => matches!(
                outcome,
                Outcome::Approved | Outcome::ApprovalTimedOut
            ),
            Phase::Completed | Phase::Failed | Phase::Crashed => false,
        }
    }

    /// Takes the outcome of the last command and returns the next command.
    pub fn step(&mut self, outcome: Outcome) -> (cmd: Command)
        requires
            old(self).wf(),
            old(self).accepts(outcome),
        ensures
            final(self).wf(),
            (*final(self), cmd) == old(self).next(outcome),
    {
        let rs = match self.flavor {
            Flavor::Basic => TransferState::NoneType,
            Flavor::Scenario => TransferState::Running,
        };
        let publish = self.advanced_visibility;
        match self.phase {
            Phase::Start => {
                self.phase = Phase::Validating;
                Command::Execute { activity: Activity::Validate, publish_step: publish }
            },
            Phase::Validating => match outcome {
                Outcome::Succeeded(_) => {
                    self.phase = Phase::Validated;
                    self.progress = 25;
                    self.transfer_state = rs;
                    Command::ReportProgress { progress: 25, transfer_state: rs, sleep_secs: 1 }
                },
                Outcome::Failed(e) => {
                    self.phase = Phase::Failed;
                    Command::Fail(WorkflowFailure::Activity(e))
                },
                _ => unreached(),
            },
            Phase::Validated => {
                if self.needs_approval {
                    self.phase = Phase::ApprovalRequested;
                    self.progress = 30;
                    self.transfer_state = TransferState::Waiting;
                    Command::ReportProgress {
                        progress: 30,
                        transfer_state: TransferState::Waiting,
                        sleep_secs: 0,
                    }
                } else {
                    self.phase = Phase::Withdrawing;
                    Command::Execute { activity: Activity::Withdraw, publish_step: publish }
                }
            },
            Phase::ApprovalRequested => {
                self.phase = Phase::AwaitingApproval;
                Command::AwaitApproval { timeout_secs: self.approval_time }
            },
            Phase::AwaitingApproval => match outcome {
                Outcome::Approved => {
                    self.phase = Phase::Withdrawing;
                    Command::Execute { activity: Activity::Withdraw, publish_step: publish }
                },
                _ => {
                    self.phase = Phase::Failed;
                    Command::Fail(
                        WorkflowFailure::ApprovalTimeout { approval_time: self.approval_time },
                    )
                },
            },
            Phase::Withdrawing => match outcome {
                Outcome::Succeeded(_) => {
                    self.phase = Phase::Withdrawn;
                    self.progress = 50;
                    self.transfer_state = rs;
                    Command::ReportProgress { progress: 50, transfer_state: rs, sleep_secs: 3 }
                },
                Outcome::Failed(e) => {
                    self.phase = Phase::Failed;
                    Command::Fail(WorkflowFailure::Activity(e))
                },
                _ => unreached(),
            },
            Phase::Withdrawn => {
                if self.simulate_bug {
                    self.phase = Phase::Crashed;
                    Command::SimulateBug
                } else {
                    self.phase = Phase::Depositing;
                    Command::Execute { activity: Activity::Deposit, publish_step: publish }
                }
            },
            Phase::Depositing => match outcome {
                Outcome::Succeeded(c) => {
                    self.phase = Phase::DepositReceived;
                    self.charge_id = c.clone();
                    Command::RecordDeposit(DepositResponse { charge_id: c })
                },
                Outcome::Failed(e) => {
                    if self.flavor == Flavor::Scenario {
                        self.phase = Phase::Compensating;
                        self.deposit_error = e;
                        Command::Execute { activity: Activity::UndoWithdraw, publish_step: false }
                    } else {
                        self.phase = Phase::Failed;
                        Command::Fail(WorkflowFailure::Activity(e))
                    }
                },
                _ => unreached(),
            },
            Phase::Compensating => match outcome {
                Outcome::Succeeded(_) => {
                    self.phase = Phase::Failed;
                    Command::Fail(WorkflowFailure::DepositFailed { cause: self.deposit_error.clone() })
                },
                Outcome::Failed(e) => {
                    self.phase = Phase::Failed;
                    Command::Fail(WorkflowFailure::Activity(e))
                },
                _ => unreached(),
            },
            Phase::DepositReceived => {
                self.phase = Phase::Deposited;
                self.progress = 75;
                self.transfer_state = rs;
                Command::ReportProgress { progress: 75, transfer_state: rs, sleep_secs: 1 }
            },
            Phase::Deposited => {
                self.phase = Phase::Notifying;
                Command::Execute { activity: Activity::SendNotification, publish_step: publish }
            },
            Phase::Notifying => match outcome {
                Outcome::Succeeded(_) => {
                    self.phase = Phase::Notified;
                    self.progress = 100;
                    self.transfer_state = TransferState::Finished;
                    Command::ReportProgress {
                        progress: 100,
                        transfer_state: TransferState::Finished,
                        sleep_secs: 1,
                    }
                },
                Outcome::Failed(e) => {
                    self.phase = Phase::Failed;
                    Command::Fail(WorkflowFailure::Activity(e))
                },
                _ => unreached(),
            },
            Phase::Notified => {
                self.phase = Phase::Completed;
                Command::Complete(TransferOutput { deposit_response: self.charge_id.clone() })
            },
            Phase::Completed | Phase::Failed | Phase::Crashed => unreached(),
        }
    }
}


/// The state a run reaches after `outcomes`, and the commands it issued on the way.
pub open spec fn run_through(run: TransferRun, outcomes: Seq<Outcome>) -> (TransferRun, Seq<Command>)
    decreases outcomes.len(),
{
    if outcomes.len() == 0 {
        (run, Seq::empty())
    } else {
        let (after, cmd) = run.next(outcomes[0]);
        let (last, cmds) = run_through(after, outcomes.drop_first());
        (last, seq![cmd] + cmds)
    }
}

/// Each of `outcomes` is one that the run waits for when it arrives.
pub open spec fn accepts_all(run: TransferRun, outcomes: Seq<Outcome>) -> bool
    decreases outcomes.len(),
{
    outcomes.len() == 0 || (run.accepts(outcomes[0]) && accepts_all(
        run.next(outcomes[0]).0,
        outcomes.drop_first(),
    ))
}

/// The outcomes of a transfer in which every activity succeeds and no
/// approval is needed: validation returns `validated`, the withdraw
/// `withdrawn`, the deposit `charge` and the notification `notified`.
pub open spec fn smooth_outcomes(
    validated: String,
    withdrawn: String,
    charge: String,
    notified: String,
) -> Seq<Outcome> {
    seq![
        Outcome::Started,
        Outcome::Succeeded(validated),
        Outcome::Resumed,
        Outcome::Succeeded(withdrawn),
        Outcome::Resumed,
        Outcome::Succeeded(charge),
        Outcome::Resumed,
        Outcome::Resumed,
        Outcome::Succeeded(notified),
        Outcome::Resumed,
    ]
}

/// Every step keeps a run well formed, and the recorded progress never goes
/// back.
pub proof fn lemma_step_keeps_wf_and_progress(run: TransferRun, outcome: Outcome)
    requires
        run.wf(),
        run.accepts(outcome),
    ensures
        run.next(outcome).0.wf(),
        run.next(outcome).0.progress >= run.progress,
        run.next(outcome).0.flavor == run.flavor,
        run.next(outcome).0.workflow_type == run.workflow_type,
        run.next(outcome).0.input == run.input,
        run.next(outcome).0.activity_input == run.activity_input,
{
}

/// How far along a run is; every step moves it further.
pub open spec fn phase_rank(phase: Phase) -> nat {
    match phase {
        Phase::Start => 0,
        Phase::Validating => 1,
        Phase::Validated => 2,
        Phase::ApprovalRequested => 3,
        Phase::AwaitingApproval => 4,
        Phase::Withdrawing => 5,
        Phase::Withdrawn => 6,
        Phase::Depositing => 7,
        Phase::Compensating => 8,
        Phase::DepositReceived => 9,
        Phase::Deposited => 10,
        Phase::Notifying => 11,
        Phase::Notified => 12,
        Phase::Completed => 13,
        Phase::Failed => 13,
        Phase::Crashed => 13,
    }
}

/// A run never goes back to an earlier phase, so it ends after at most
/// thirteen steps.
pub proof fn lemma_runs_always_advance(run: TransferRun, outcome: Outcome)
    requires
        run.wf(),
        run.accepts(outcome),
    ensures
        phase_rank(run.next(outcome).0.phase) > phase_rank(run.phase),
        phase_rank(run.phase) < 13,
{
}

/// Only the advanced-visibility scenario publishes its step, and it does so
/// before every activity but the revert of a withdraw.
pub proof fn lemma_steps_published_only_with_advanced_visibility(run: TransferRun, outcome: Outcome)
    requires
        run.wf(),
        run.accepts(outcome),
    ensures
        run.next(outcome).1 matches Command::Execute { activity, publish_step } ==> publish_step
            == (run.workflow_type@ == ADVANCED_VISIBILITY@ && run.flavor == Flavor::Scenario
            && activity != Activity::UndoWithdraw),
{
}

/// A run shows the `finished` state exactly when its progress is 100.
pub proof fn lemma_finished_iff_full_progress(run: TransferRun)
    requires
        run.wf(),
    ensures
        run.transfer_state == TransferState::Finished <==> run.progress == 100,
        run.progress <= 100,
{
}

/// Money is withdrawn only once the transfer was validated and, where the
/// workflow type asks for it, approved.
pub proof fn lemma_withdraw_only_after_validation_and_approval(run: TransferRun, outcome: Outcome)
    requires
        run.wf(),
        run.accepts(outcome),
        run.next(outcome).1 matches Command::Execute { activity: Activity::Withdraw, .. },
    ensures
        run.needs_approval ==> run.phase == Phase::AwaitingApproval && outcome is Approved,
        !run.needs_approval ==> run.phase == Phase::Validated,
{
}

/// A run that needs no approval withdraws as soon as its validation has
/// been reported, whatever its workflow type (the recoverable-failure
/// scenario included); a run starts withdrawing only by issuing the withdraw
/// activity, and counts as withdrawn only once that activity succeeded.
pub proof fn lemma_validated_run_withdraws(run: TransferRun, outcome: Outcome)
    requires
        run.wf(),
        run.accepts(outcome),
    ensures
        run.phase == Phase::Validated && !run.needs_approval ==> run.next(outcome).1 matches Command::Execute { activity: Activity::Withdraw, .. },
        run.phase != Phase::Withdrawing && run.next(outcome).0.phase == Phase::Withdrawing ==> run.next(outcome).1 matches Command::Execute { activity: Activity::Withdraw, .. },
        run.next(outcome).0.phase == Phase::Withdrawn ==> run.phase == Phase::Withdrawing && outcome is Succeeded,
        run.simulate_bug && run.next(outcome).1 is SimulateBug ==> run.phase == Phase::Withdrawn,
{
}

/// A run that waits for approval and does not get it fails with
/// `ApprovalTimeout`, without withdrawing.
pub proof fn lemma_missing_approval_fails(run: TransferRun)
    requires
        run.wf(),
        run.phase == Phase::AwaitingApproval,
    ensures
        run.next(Outcome::ApprovalTimedOut).0.phase == Phase::Failed,
        run.next(Outcome::ApprovalTimedOut).1 == Command::Fail(
            WorkflowFailure::ApprovalTimeout { approval_time: run.approval_time },
        ),
{
}

/// In the scenarios, a failed deposit is answered by reverting the withdraw,
/// and the workflow fails with `DepositFailed` only after the revert
/// succeeded, naming the deposit's error.
pub proof fn lemma_failed_deposit_is_compensated(run: TransferRun, outcome: Outcome)
    requires
        run.wf(),
        run.accepts(outcome),
    ensures
        run.flavor == Flavor::Scenario && run.phase == Phase::Depositing && outcome is Failed
            ==> run.next(outcome).1 == (Command::Execute {
            activity: Activity::UndoWithdraw,
            publish_step: false,
        }) && run.next(outcome).0.deposit_error == outcome->Failed_0,
        run.next(outcome).1 matches Command::Fail(WorkflowFailure::DepositFailed { cause })
            ==> run.phase == Phase::Compensating && outcome is Succeeded && cause
            == run.deposit_error,
        run.phase == Phase::Compensating ==> run.flavor == Flavor::Scenario,
{
}

/// A completed run returns the charge that the deposit produced, and nothing
/// but the deposit changes the recorded charge.
pub proof fn lemma_completion_returns_the_deposit_charge(run: TransferRun, outcome: Outcome)
    requires
        run.wf(),
        run.accepts(outcome),
    ensures
        run.next(outcome).1 matches Command::Complete(out) ==> run.phase == Phase::Notified
            && out.deposit_response == run.charge_id,
        run.phase == Phase::Depositing && outcome is Succeeded ==> run.next(outcome).0.charge_id
            == outcome->Succeeded_0,
        run.phase != Phase::Depositing ==> run.next(outcome).0.charge_id == run.charge_id,
{
}

/// The recoverable-failure scenario crashes after the withdraw and never
/// deposits.
pub proof fn lemma_bug_scenario_never_deposits(run: TransferRun, outcome: Outcome)
    requires
        run.wf(),
        run.accepts(outcome),
        run.simulate_bug,
    ensures
        !(run.next(outcome).1 matches Command::Execute { activity: Activity::Deposit, .. }),
        run.phase == Phase::Withdrawn ==> run.next(outcome).1 == Command::SimulateBug,
{
}

/// A run that has ended waits for nothing, and a run ends only by completing,
/// failing or crashing.
pub proof fn lemma_finished_runs_accept_nothing(run: TransferRun, outcome: Outcome)
    requires
        run.wf(),
    ensures
        run.is_finished() ==> !run.accepts(outcome),
        run.accepts(outcome) && run.next(outcome).0.is_finished() ==> (run.next(outcome).1 is Complete
            || run.next(outcome).1 is Fail || run.next(outcome).1 is SimulateBug),
{
}

/// When every activity succeeds and no approval is needed, a new run
/// validates, withdraws, deposits and notifies in that order, reports 25, 50,
/// 75 and 100 percent on the way, and completes with the deposit's charge.
pub proof fn lemma_smooth_transfer_completes(
    run: TransferRun,
    validated: String,
    withdrawn: String,
    charge: String,
    notified: String,
)
    requires
        run.wf(),
        run.phase == Phase::Start,
        !run.needs_approval,
        !run.simulate_bug,
    ensures
        ({
            let outcomes = smooth_outcomes(validated, withdrawn, charge, notified);
            let (last, cmds) = run_through(run, outcomes);
            let rs = running_state(run.flavor);
            let publish = run.advanced_visibility;
            &&& accepts_all(run, outcomes)
            &&& last.phase == Phase::Completed
            &&& last.progress == 100
            &&& last.transfer_state == TransferState::Finished
            &&& cmds == seq![
                Command::Execute { activity: Activity::Validate, publish_step: publish },
                Command::ReportProgress { progress: 25, transfer_state: rs, sleep_secs: 1 },
                Command::Execute { activity: Activity::Withdraw, publish_step: publish },
                Command::ReportProgress { progress: 50, transfer_state: rs, sleep_secs: 3 },
                Command::Execute { activity: Activity::Deposit, publish_step: publish },
                Command::RecordDeposit(DepositResponse { charge_id: charge }),
                Command::ReportProgress { progress: 75, transfer_state: rs, sleep_secs: 1 },
                Command::Execute { activity: Activity::SendNotification, publish_step: publish },
                Command::ReportProgress {
                    progress: 100,
                    transfer_state: TransferState::Finished,
                    sleep_secs: 1,
                },
                Command::Complete(TransferOutput { deposit_response: charge }),
            ]
        }),
{
    let o = smooth_outcomes(validated, withdrawn, charge, notified);
    let r1 = run.next(o[0]).0;
    let r2 = r1.next(o[1]).0;
    let r3 = r2.next(o[2]).0;
    let r4 = r3.next(o[3]).0;
    let r5 = r4.next(o[4]).0;
    let r6 = r5.next(o[5]).0;
    let r7 = r6.next(o[6]).0;
    let r8 = r7.next(o[7]).0;
    let r9 = r8.next(o[8]).0;
    let r10 = r9.next(o[9]).0;
    lemma_run_through_suffix(r9, o, 9);
    lemma_run_through_suffix(r8, o, 8);
    lemma_run_through_suffix(r7, o, 7);
    lemma_run_through_suffix(r6, o, 6);
    lemma_run_through_suffix(r5, o, 5);
    lemma_run_through_suffix(r4, o, 4);
    lemma_run_through_suffix(r3, o, 3);
    lemma_run_through_suffix(r2, o, 2);
    lemma_run_through_suffix(r1, o, 1);
    lemma_run_through_suffix(run, o, 0);
    assert(o.subrange(10, 10) =~= Seq::<Outcome>::empty());
    assert(o.subrange(0, 10) =~= o);
    assert(run_through(run, o).1 =~= seq![
        run.next(o[0]).1, r1.next(o[1]).1, r2.next(o[2]).1, r3.next(o[3]).1, r4.next(o[4]).1,
        r5.next(o[5]).1, r6.next(o[6]).1, r7.next(o[7]).1, r8.next(o[8]).1, r9.next(o[9]).1,
    ]);
}

/// The outcomes of a transfer that waits for approval, gets it, and in
/// which every activity succeeds.
pub open spec fn approved_outcomes(
    validated: String,
    withdrawn: String,
    charge: String,
    notified: String,
) -> Seq<Outcome> {
    seq![
        Outcome::Started,
        Outcome::Succeeded(validated),
        Outcome::Resumed,
        Outcome::Resumed,
        Outcome::Approved,
        Outcome::Succeeded(withdrawn),
        Outcome::Resumed,
        Outcome::Succeeded(charge),
        Outcome::Resumed,
        Outcome::Resumed,
        Outcome::Succeeded(notified),
        Outcome::Resumed,
    ]
}

/// A transfer that needs approval reports 25 percent, then waits (30
/// percent, `waiting`) for at most its approval time, and once approved
/// withdraws, deposits and notifies, and completes with the deposit's charge.
pub proof fn lemma_approved_transfer_completes(
    run: TransferRun,
    validated: String,
    withdrawn: String,
    charge: String,
    notified: String,
)
    requires
        run.wf(),
        run.phase == Phase::Start,
        run.needs_approval,
    ensures
        ({
            let outcomes = approved_outcomes(validated, withdrawn, charge, notified);
            let (last, cmds) = run_through(run, outcomes);
            let rs = TransferState::Running;
            &&& accepts_all(run, outcomes)
            &&& last.phase == Phase::Completed
            &&& last.progress == 100
            &&& last.transfer_state == TransferState::Finished
            &&& cmds == seq![
                Command::Execute { activity: Activity::Validate, publish_step: false },
                Command::ReportProgress { progress: 25, transfer_state: rs, sleep_secs: 1 },
                Command::ReportProgress {
                    progress: 30,
                    transfer_state: TransferState::Waiting,
                    sleep_secs: 0,
                },
                Command::AwaitApproval { timeout_secs: run.approval_time },
                Command::Execute { activity: Activity::Withdraw, publish_step: false },
                Command::ReportProgress { progress: 50, transfer_state: rs, sleep_secs: 3 },
                Command::Execute { activity: Activity::Deposit, publish_step: false },
                Command::RecordDeposit(DepositResponse { charge_id: charge }),
                Command::ReportProgress { progress: 75, transfer_state: rs, sleep_secs: 1 },
                Command::Execute { activity: Activity::SendNotification, publish_step: false },
                Command::ReportProgress {
                    progress: 100,
                    transfer_state: TransferState::Finished,
                    sleep_secs: 1,
                },
                Command::Complete(TransferOutput { deposit_response: charge }),
            ]
        }),
{
    reveal_strlit("AccountTransferWorkflowHumanInLoop");
    reveal_strlit("AccountTransferWorkflowRecoverableFailure");
    reveal_strlit("AccountTransferWorkflowAdvancedVisibility");
    assert(NEEDS_APPROVAL@ != BUG@ && NEEDS_APPROVAL@ != ADVANCED_VISIBILITY@) by {
        assert(NEEDS_APPROVAL@.len() != BUG@.len());
        assert(NEEDS_APPROVAL@.len() != ADVANCED_VISIBILITY@.len());
    }
    let o = approved_outcomes(validated, withdrawn, charge, notified);
    let r1 = run.next(o[0]).0;
    let r2 = r1.next(o[1]).0;
    let r3 = r2.next(o[2]).0;
    let r4 = r3.next(o[3]).0;
    let r5 = r4.next(o[4]).0;
    let r6 = r5.next(o[5]).0;
    let r7 = r6.next(o[6]).0;
    let r8 = r7.next(o[7]).0;
    let r9 = r8.next(o[8]).0;
    let r10 = r9.next(o[9]).0;
    let r11 = r10.next(o[10]).0;
    lemma_run_through_suffix(r11, o, 11);
    lemma_run_through_suffix(r10, o, 10);
    lemma_run_through_suffix(r9, o, 9);
    lemma_run_through_suffix(r8, o, 8);
    lemma_run_through_suffix(r7, o, 7);
    lemma_run_through_suffix(r6, o, 6);
    lemma_run_through_suffix(r5, o, 5);
    lemma_run_through_suffix(r4, o, 4);
    lemma_run_through_suffix(r3, o, 3);
    lemma_run_through_suffix(r2, o, 2);
    lemma_run_through_suffix(r1, o, 1);
    lemma_run_through_suffix(run, o, 0);
    assert(o.subrange(12, 12) =~= Seq::<Outcome>::empty());
    assert(o.subrange(0, 12) =~= o);
    assert(run_through(run, o).1 =~= seq![
        run.next(o[0]).1, r1.next(o[1]).1, r2.next(o[2]).1, r3.next(o[3]).1, r4.next(o[4]).1,
        r5.next(o[5]).1, r6.next(o[6]).1, r7.next(o[7]).1, r8.next(o[8]).1, r9.next(o[9]).1,
        r10.next(o[10]).1, r11.next(o[11]).1,
    ]);
}

/// Unfolds [`run_through`] and [`accepts_all`] once, on the suffix of
/// `outcomes` that starts at `k`.
proof fn lemma_run_through_suffix(run: TransferRun, outcomes: Seq<Outcome>, k: int)
    requires
        0 <= k < outcomes.len(),
    ensures
        ({
            let (after, cmd) = run.next(outcomes[k]);
            let rest = outcomes.subrange(k + 1, outcomes.len() as int);
            &&& run_through(run, outcomes.subrange(k, outcomes.len() as int)) == (
                run_through(after, rest).0,
                seq![cmd] + run_through(after, rest).1,
            )
            &&& accepts_all(run, outcomes.subrange(k, outcomes.len() as int)) == (run.accepts(
                outcomes[k],
            ) && accepts_all(after, rest))
        }),
{
    assert(outcomes.subrange(k, outcomes.len() as int).drop_first() =~= outcomes.subrange(
        k + 1,
        outcomes.len() as int,
    ));
}

} // verus!
