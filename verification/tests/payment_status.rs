use subscription_billing::payment::PaymentStatus;

#[test]
fn test_payment_status_from_peach_code() {
    assert_eq!(PaymentStatus::from_peach_code("000.000.000"), PaymentStatus::Completed);
    assert_eq!(PaymentStatus::from_peach_code("000.100.110"), PaymentStatus::Completed);
    assert_eq!(PaymentStatus::from_peach_code("000.200.100"), PaymentStatus::Pending);
    assert_eq!(PaymentStatus::from_peach_code("100.396.104"), PaymentStatus::Failed);
    assert_eq!(PaymentStatus::from_peach_code("800.100.100"), PaymentStatus::Failed);
}

#[test]
fn result_code_prefix_must_be_complete() {
    assert_eq!(PaymentStatus::from_peach_code(""), PaymentStatus::Failed);
    assert_eq!(PaymentStatus::from_peach_code("000.00"), PaymentStatus::Failed);
    assert_eq!(PaymentStatus::from_peach_code("000.000"), PaymentStatus::Completed);
    assert_eq!(PaymentStatus::from_peach_code("000.100"), PaymentStatus::Completed);
    assert_eq!(PaymentStatus::from_peach_code("000.200"), PaymentStatus::Pending);
    assert_eq!(PaymentStatus::from_peach_code("000.300.000"), PaymentStatus::Failed);
    assert_eq!(PaymentStatus::from_peach_code("x000.000.000"), PaymentStatus::Failed);
}

#[test]
fn result_code_mapping_is_stable() {
    for code in ["000.000.000", "000.100.110", "000.200.100", "100.396.104", "800.100.100"] {
        assert_eq!(PaymentStatus::from_peach_code(code), PaymentStatus::from_peach_code(code));
    }
}

#[test]
fn user_cancellation_is_recognised() {
    assert!(PaymentStatus::is_user_cancellation("100.396.104"));
    assert!(!PaymentStatus::is_user_cancellation("100.396.10"));
    assert!(!PaymentStatus::is_user_cancellation("100.396.1040"));
    assert!(!PaymentStatus::is_user_cancellation("000.000.000"));
}

#[test]
fn transitions_follow_the_state_machine() {
    let all = [
        PaymentStatus::Pending,
        PaymentStatus::Completed,
        PaymentStatus::Failed,
        PaymentStatus::Cancelled,
        PaymentStatus::Refunded,
        PaymentStatus::PartiallyRefunded,
    ];
    for from in all {
        for to in all {
            let allowed = from == to
                || (from == PaymentStatus::Pending
                    && (to == PaymentStatus::Completed
                        || to == PaymentStatus::Failed
                        || to == PaymentStatus::Cancelled))
                || (from == PaymentStatus::Completed
                    && (to == PaymentStatus::Refunded || to == PaymentStatus::PartiallyRefunded));
            assert_eq!(from.can_become(to), allowed, "{:?} -> {:?}", from, to);
        }
    }
}

#[test]
fn final_statuses() {
    assert!(!PaymentStatus::Pending.is_final());
    assert!(PaymentStatus::Completed.is_final());
    assert!(PaymentStatus::Failed.is_final());
    assert!(PaymentStatus::Cancelled.is_final());
    assert!(PaymentStatus::Refunded.is_final());
    assert!(!PaymentStatus::PartiallyRefunded.is_final());
}
