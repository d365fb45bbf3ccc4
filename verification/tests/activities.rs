use money_transfer::activities::{AccountTransferActivities, RetryPolicy};
use money_transfer::shared::{ActivityInput, TransferInput, API_DOWNTIME, INVALID_ACCOUNT};

fn activity_input(workflow_type: &str) -> ActivityInput {
    ActivityInput { idempotency_key: "k".to_string(), amount: 10, workflow_type: workflow_type.to_string() }
}

#[test]
fn retry_policy_backs_off_from_one_to_thirty_seconds() {
    assert_eq!(
        AccountTransferActivities::get_retry_policy(),
        RetryPolicy { initial_interval_secs: 1, maximum_interval_secs: 30, backoff_coefficient: 2 }
    );
}

#[test]
fn withdraw_recovers_on_the_fifth_attempt() {
    let input = activity_input(API_DOWNTIME);
    for attempt in 1..5 {
        let err = AccountTransferActivities::withdraw(&input, attempt).unwrap_err();
        assert_eq!(err.message, "Withdraw activity failed, API unavailable");
        assert!(err.retryable);
    }
    assert_eq!(AccountTransferActivities::withdraw(&input, 5).unwrap(), "SUCCESS");
    assert_eq!(AccountTransferActivities::withdraw(&input, 6).unwrap(), "SUCCESS");
}

#[test]
fn withdraw_succeeds_for_other_scenarios() {
    for t in ["AccountTransferWorkflow", INVALID_ACCOUNT, "AccountTransferWorkflowHumanInLoop"] {
        assert_eq!(AccountTransferActivities::withdraw(&activity_input(t), 1).unwrap(), "SUCCESS");
    }
}

#[test]
fn deposit_to_an_invalid_account_fails_for_good() {
    let err = AccountTransferActivities::deposit(&activity_input(INVALID_ACCOUNT), 1).unwrap_err();
    assert_eq!(err.message, "Deposit activity failed, account is invalid");
    assert!(!err.retryable);
    assert_eq!(
        AccountTransferActivities::deposit(&activity_input(INVALID_ACCOUNT), 5).unwrap(),
        "example-transfer-id"
    );
}

#[test]
fn deposit_returns_the_charge_id() {
    assert_eq!(
        AccountTransferActivities::deposit(&activity_input(API_DOWNTIME), 1).unwrap(),
        "example-transfer-id"
    );
}

#[test]
fn simulated_api_answers_the_workflow_type_until_it_recovers() {
    let t = "AccountTransferWorkflowAPIDowntime".to_string();
    assert_eq!(AccountTransferActivities::simulate_external_operation(&t, 4), t);
    assert_eq!(AccountTransferActivities::simulate_external_operation(&t, 5), "NoError");
}

#[test]
fn simulated_delay_shrinks_with_attempts() {
    assert_eq!(AccountTransferActivities::simulated_delay_ms(1000, 1), 1000);
    assert_eq!(AccountTransferActivities::simulated_delay_ms(1000, 3), 333);
    assert_eq!(AccountTransferActivities::simulated_delay_ms(1000, 2000), 0);
}

#[test]
fn simple_activities_succeed() {
    let input = TransferInput { amount: 1, from_account: "a".to_string(), to_account: "b".to_string() };
    assert_eq!(AccountTransferActivities::validate(&input), "SUCCESS");
    assert_eq!(AccountTransferActivities::send_notification(&input), "SUCCESS");
    assert!(AccountTransferActivities::undo_withdraw(&"reverting withdraw".to_string()));
}

#[test]
fn idempotency_keys_are_random_v4_uuids() {
    let a = AccountTransferActivities::generate_idempotency_key();
    let b = AccountTransferActivities::generate_idempotency_key();
    assert_ne!(a, b);
    for key in [a, b] {
        let chars: Vec<char> = key.chars().collect();
        assert_eq!(chars.len(), 36);
        for (i, c) in chars.iter().enumerate() {
            if [8, 13, 18, 23].contains(&i) {
                assert_eq!(*c, '-');
            } else {
                assert!(c.is_ascii_hexdigit() && !c.is_ascii_uppercase());
            }
        }
        assert_eq!(chars[14], '4');
        assert!(['8', '9', 'a', 'b'].contains(&chars[19]));
    }
}
