//! The banking activities of a transfer, against a simulated external API.
//!
//! The simulated API answers with the workflow type for the first four
//! attempts of an activity and with `NoError` from the fifth attempt on, so
//! that a scenario's failure shows up until the API "recovers". The worker
//! sleeps for [`AccountTransferActivities::simulated_delay_ms`] before it
//! takes an activity's result.
use vstd::prelude::*;
use vstd::string::StringExecFns;

use crate::shared::{ActivityInput, TransferInput, API_DOWNTIME, INVALID_ACCOUNT};

verus! {

/// The activities of a money transfer.
pub struct AccountTransferActivities;

/// How the runtime retries a failed activity: the first retry after
/// `initial_interval_secs`, each next one `backoff_coefficient` times later,
/// never more than `maximum_interval_secs` apart. The coefficient is a whole
/// number; the worker hands it to the runtime as a float.
#[derive(Clone, Copy, Debug, PartialEq, Eq, Structural)]
pub struct RetryPolicy {
    pub initial_interval_secs: u64,
    pub maximum_interval_secs: u64,
    pub backoff_coefficient: u64,
}

/// Why an activity failed, and whether the runtime may retry it.
#[derive(Debug)]
pub struct ActivityFailure {
    pub message: String,
    pub retryable: bool,
}

/// The retry policy that the transfer workflows use.
pub open spec fn transfer_retry_policy() -> RetryPolicy {
    RetryPolicy { initial_interval_secs: 1, maximum_interval_secs: 30, backoff_coefficient: 2 }
}

/// What the simulated external API answers on `attempt`: the workflow type
/// for the first four attempts, `NoError` from then on.
pub open spec fn simulated_outcome_text(workflow_type: Seq<char>, attempt: u64) -> Seq<char> {
    if attempt < 5 {
        workflow_type
    } else {
        "NoError"@
    }
}

/// The withdraw fails on this attempt: the API is down for the
/// `AccountTransferWorkflowAPIDowntime` scenario until it recovers.
pub open spec fn withdraw_fails(workflow_type: Seq<char>, attempt: u64) -> bool {
    simulated_outcome_text(workflow_type, attempt) == API_DOWNTIME@
}

/// The deposit fails on this attempt: the account does not exist in the
/// `AccountTransferWorkflowInvalidAccount` scenario.
pub open spec fn deposit_fails(workflow_type: Seq<char>, attempt: u64) -> bool {
    simulated_outcome_text(workflow_type, attempt) == INVALID_ACCOUNT@
}

/// `c` is a lower-case hexadecimal digit.
pub open spec fn is_lower_hex_digit(c: char) -> bool {
    (48 <= c as u32 && c as u32 <= 57) || (97 <= c as u32 && c as u32 <= 102)
}

/// `s` is the hyphenated lower-case text of a random (version 4, RFC 9562
/// variant) UUID, such as `67e55044-10b1-426f-9247-bb680e5fe0c8`.
pub open spec fn is_uuid_v4_text(s: Seq<char>) -> bool {
    &&& s.len() == 36
    &&& forall|i: int|
        0 <= i < 36 ==> if i == 8 || i == 13 || i == 18 || i == 23 {
            #[trigger] s[i] == '-'
        } else {
            is_lower_hex_digit(s[i])
        }
    &&& s[14] == '4'
    &&& (s[19] == '8' || s[19] == '9' || s[19] == 'a' || s[19] == 'b')
}

/// Calls `uuid::Uuid::new_v4` and renders the result with its `Display`
/// impl. Claimed: the text is a hyphenated lower-case version 4 UUID; the
/// random bits are not stated.
#[verifier::external_body]
fn new_v4_uuid_text() -> (s: String)
    ensures
        is_uuid_v4_text(s@),
{
    uuid::Uuid::new_v4().to_string()
}

impl AccountTransferActivities {
    /// Retry the first failure after a second, back off by a factor of two,
    /// and never wait more than thirty seconds between attempts.
    pub fn get_retry_policy() -> (policy: RetryPolicy)
        ensures
            policy == transfer_retry_policy(),
    {
        RetryPolicy { initial_interval_secs: 1, maximum_interval_secs: 30, backoff_coefficient: 2 }
    }

    /// A fresh random idempotency key.
    pub fn generate_idempotency_key() -> (key: String)
        ensures
            is_uuid_v4_text(key@),
    {
        new_v4_uuid_text()
    }

    /// How long the simulated external API takes on `attempt`: `ms` split
    /// over the attempts made so far.
    pub fn simulated_delay_ms(ms: u64, attempt: u64) -> (delay: u64)
        requires
            attempt > 0,
        ensures
            delay == ms / attempt,
    {
        ms / attempt
    }

    /// What the simulated external API answers for a workflow of type
    /// `workflow_type` on `attempt`.
    pub fn simulate_external_operation(workflow_type: &String, attempt: u64) -> (answer: String)
        ensures
            answer@ == simulated_outcome_text(workflow_type@, attempt),
    {
        if attempt < 5 {
            workflow_type.clone()
        } else {
            String::from_str("NoError")
        }
    }

    /// Validates a transfer request: the simulated check always passes.
    pub fn validate(input: &TransferInput) -> (result: String)
        ensures
            result@ == "SUCCESS"@,
    {
        String::from_str("SUCCESS")
    }

    /// Withdraws the amount. While the simulated API is down the withdraw
    /// fails with a retryable error, so the runtime keeps retrying it.
    pub fn withdraw(input: &ActivityInput, attempt: u64) -> (result: Result<String, ActivityFailure>)
        ensures
            match result {
                Ok(v) => !withdraw_fails(input.workflow_type@, attempt) && v@ == "SUCCESS"@,
                Err(f) => withdraw_fails(input.workflow_type@, attempt) && f.retryable
                    && f.message@ == "Withdraw activity failed, API unavailable"@,
            },
    {
        let answer = Self::simulate_external_operation(&input.workflow_type, attempt);
        if answer == String::from_str(API_DOWNTIME) {
            Err(
                ActivityFailure {
                    message: String::from_str("Withdraw activity failed, API unavailable"),
                    retryable: true,
                },
            )
        } else {
            Ok(String::from_str("SUCCESS"))
        }
    }

    /// Deposits the amount and returns the charge id. When the destination
    /// account does not exist the deposit fails for good.
    pub fn deposit(input: &ActivityInput, attempt: u64) -> (result: Result<String, ActivityFailure>)
        ensures
            match result {
                Ok(v) => !deposit_fails(input.workflow_type@, attempt) && v@
                    == "example-transfer-id"@,
                Err(f) => deposit_fails(input.workflow_type@, attempt) && !f.retryable
                    && f.message@ == "Deposit activity failed, account is invalid"@,
            },
    {
        let answer = Self::simulate_external_operation(&input.workflow_type, attempt);
        if answer == String::from_str(INVALID_ACCOUNT) {
            Err(
                ActivityFailure {
                    message: String::from_str("Deposit activity failed, account is invalid"),
                    retryable: false,
                },
            )
        } else {
            Ok(String::from_str("example-transfer-id"))
        }
    }

    /// Notifies the customer; the simulated notification always succeeds.
    pub fn send_notification(input: &TransferInput) -> (result: String)
        ensures
            result@ == "SUCCESS"@,
    {
        String::from_str("SUCCESS")
    }

    /// Reverts a withdraw; the simulated revert always succeeds.
    pub fn undo_withdraw(message: &String) -> (reverted: bool)
        ensures
            reverted,
    {
        true
    }
}

/// The withdraw of the API-downtime scenario fails, retryably, on its first
/// four attempts and succeeds from the fifth on.
pub proof fn lemma_api_downtime_recovers_on_fifth_attempt(attempt: u64)
    ensures
        withdraw_fails(API_DOWNTIME@, attempt) <==> attempt < 5,
{
    reveal_strlit("NoError");
    reveal_strlit("AccountTransferWorkflowAPIDowntime");
    assert("NoError"@.len() != API_DOWNTIME@.len());
}

/// The deposit of the invalid-account scenario fails on its first attempt,
/// and the failure is not retried.
pub proof fn lemma_invalid_account_fails_first_deposit()
    ensures
        deposit_fails(INVALID_ACCOUNT@, 1),
{
}

/// No scenario but the API-downtime one fails a withdraw, and none but the
/// invalid-account one fails a deposit.
pub proof fn lemma_other_workflow_types_never_fail(workflow_type: Seq<char>, attempt: u64)
    ensures
        workflow_type != API_DOWNTIME@ ==> !withdraw_fails(workflow_type, attempt),
        workflow_type != INVALID_ACCOUNT@ ==> !deposit_fails(workflow_type, attempt),
{
    reveal_strlit("NoError");
    reveal_strlit("AccountTransferWorkflowAPIDowntime");
    reveal_strlit("AccountTransferWorkflowInvalidAccount");
    assert("NoError"@.len() != API_DOWNTIME@.len());
    assert("NoError"@.len() != INVALID_ACCOUNT@.len());
}

} // verus!
