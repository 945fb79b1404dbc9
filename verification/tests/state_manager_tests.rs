use payment_engine::awaiting_info::{AwaitingInfo, AwaitingInfoAction, PaymentInfo, PaymentType};
use payment_engine::emv_payment::{EMVPayment, EmvPaymentAction, EmvResult};
use payment_engine::registry::initialize_registry;
use payment_engine::state_manager::StateManager;
use payment_engine::state_trait::StateValue;
use payment_engine::types::{StateAction, StateType};

fn create_awaiting_info_manager() -> StateManager {
    let initial_state = AwaitingInfo {
        amount_cents: None,
        payment_type: None,
    };

    StateManager::new(
        StateValue::AwaitingInfo(initial_state),
        StateType::AwaitingInfo,
        initialize_registry(),
    )
}

fn create_emv_payment_manager(amount_cents: i64, payment_type: PaymentType) -> StateManager {
    let payment_info = PaymentInfo {
        amount_cents,
        payment_type,
    };

    let emv_state = EMVPayment {
        payment_info,
        processing: false,
        emv_result: None,
    };

    StateManager::new(
        StateValue::EmvPayment(emv_state),
        StateType::EMVPayment,
        initialize_registry(),
    )
}

fn set_amount(amount_cents: i64) -> StateAction {
    StateAction::AwaitingInfo(AwaitingInfoAction::SetAmount { amount_cents })
}

fn set_payment_type(payment_type: PaymentType) -> StateAction {
    StateAction::AwaitingInfo(AwaitingInfoAction::SetPaymentType { payment_type })
}

#[test]
fn test_new_state_manager_has_correct_initial_state() {
    let manager = create_awaiting_info_manager();

    let current_type = manager.get_current_state_type();
    assert_eq!(current_type, StateType::AwaitingInfo);
}

#[test]
fn test_new_state_manager_returns_receiver() {
    let mut manager = create_awaiting_info_manager();

    // No event queued right after construction.
    assert!(manager.try_next_event().is_none());
}

#[test]
fn test_set_amount_action_stays_in_same_state() {
    let mut manager = create_awaiting_info_manager();

    let result = manager.execute(set_amount(10000));

    assert!(result.is_ok());
    assert_eq!(manager.get_current_state_type(), StateType::AwaitingInfo);

    // No state-change event may be emitted.
    assert!(manager.try_next_event().is_none());
}

#[test]
fn test_set_payment_type_action_stays_in_same_state() {
    let mut manager = create_awaiting_info_manager();

    let result = manager.execute(set_payment_type(PaymentType::Credit));

    assert!(result.is_ok());
    assert_eq!(manager.get_current_state_type(), StateType::AwaitingInfo);

    assert!(manager.try_next_event().is_none());
}

#[test]
fn test_multiple_actions_without_transition() {
    let mut manager = create_awaiting_info_manager();

    let result1 = manager.execute(set_amount(5000));
    assert!(result1.is_ok());

    let result2 = manager.execute(set_payment_type(PaymentType::Debit));
    assert!(result2.is_ok());

    assert_eq!(manager.get_current_state_type(), StateType::AwaitingInfo);

    assert!(manager.try_next_event().is_none());
}

#[test]
fn test_invalid_amount_returns_error() {
    let mut manager = create_awaiting_info_manager();

    let result = manager.execute(set_amount(-1000));

    assert!(result.is_err());
    assert!(result.unwrap_err().message().contains("maior que zero"));
}

#[test]
fn test_confirm_without_amount_returns_error() {
    let mut manager = create_awaiting_info_manager();

    let _ = manager.execute(set_payment_type(PaymentType::Credit));

    let result = manager.execute(StateAction::AwaitingInfo(AwaitingInfoAction::ConfirmInfo));

    assert!(result.is_err());
    assert!(result.unwrap_err().message().contains("não definido"));
}

#[test]
fn test_confirm_without_payment_type_returns_error() {
    let mut manager = create_awaiting_info_manager();

    let _ = manager.execute(set_amount(7500));

    let result = manager.execute(StateAction::AwaitingInfo(AwaitingInfoAction::ConfirmInfo));

    assert!(result.is_err());
    assert!(result
        .unwrap_err()
        .message()
        .contains("Tipo de pagamento não definido"));
}

#[test]
fn test_confirm_info_transitions_to_emv_payment() {
    let mut manager = create_awaiting_info_manager();

    let _ = manager.execute(set_amount(10000));
    let _ = manager.execute(set_payment_type(PaymentType::Credit));

    let result = manager.execute(StateAction::AwaitingInfo(AwaitingInfoAction::ConfirmInfo));

    assert!(result.is_ok());

    let event = manager.try_next_event().expect("a state-change event");
    assert_eq!(event.from_state, StateType::AwaitingInfo);
    assert_eq!(event.to_state, StateType::EMVPayment);

    assert_eq!(manager.get_current_state_type(), StateType::EMVPayment);
}

#[test]
fn test_complete_payment_transitions_to_success() {
    let mut manager = create_emv_payment_manager(10000, PaymentType::Credit);

    let _ = manager.execute(StateAction::EmvPayment(EmvPaymentAction::ProcessPayment));

    let emv_result = EmvResult {
        transaction_id: "TXN123".to_string(),
        authorization_code: "AUTH456".to_string(),
        timestamp: chrono::Utc::now().to_rfc3339(),
    };

    let result = manager.execute(StateAction::EmvPayment(EmvPaymentAction::CompletePayment {
        result: emv_result,
    }));

    assert!(result.is_ok());

    let event = manager.try_next_event().expect("a state-change event");
    assert_eq!(event.from_state, StateType::EMVPayment);
    assert_eq!(event.to_state, StateType::PaymentSuccess);

    assert_eq!(manager.get_current_state_type(), StateType::PaymentSuccess);
}

#[test]
fn test_cancel_payment_returns_to_awaiting_info() {
    let mut manager = create_emv_payment_manager(10000, PaymentType::Debit);

    let result = manager.execute(StateAction::EmvPayment(EmvPaymentAction::CancelPayment));

    assert!(result.is_ok());

    let event = manager.try_next_event().expect("a state-change event");
    assert_eq!(event.from_state, StateType::EMVPayment);
    assert_eq!(event.to_state, StateType::AwaitingInfo);

    assert_eq!(manager.get_current_state_type(), StateType::AwaitingInfo);
}

#[test]
fn test_full_payment_flow() {
    let mut manager = create_awaiting_info_manager();

    manager.execute(set_amount(25000)).unwrap();
    assert_eq!(manager.get_current_state_type(), StateType::AwaitingInfo);

    manager.execute(set_payment_type(PaymentType::Credit)).unwrap();
    assert_eq!(manager.get_current_state_type(), StateType::AwaitingInfo);

    manager
        .execute(StateAction::AwaitingInfo(AwaitingInfoAction::ConfirmInfo))
        .unwrap();
    assert_eq!(manager.get_current_state_type(), StateType::EMVPayment);

    let event1 = manager.try_next_event().unwrap();
    assert_eq!(event1.to_state, StateType::EMVPayment);

    manager
        .execute(StateAction::EmvPayment(EmvPaymentAction::ProcessPayment))
        .unwrap();
    assert_eq!(manager.get_current_state_type(), StateType::EMVPayment);

    let emv_result = EmvResult {
        transaction_id: "TXN789".to_string(),
        authorization_code: "AUTH012".to_string(),
        timestamp: chrono::Utc::now().to_rfc3339(),
    };

    manager
        .execute(StateAction::EmvPayment(EmvPaymentAction::CompletePayment {
            result: emv_result,
        }))
        .unwrap();
    assert_eq!(manager.get_current_state_type(), StateType::PaymentSuccess);

    let event2 = manager.try_next_event().unwrap();
    assert_eq!(event2.to_state, StateType::PaymentSuccess);
}

#[test]
fn test_get_description_for_awaiting_info() {
    let manager = create_awaiting_info_manager();

    let description = manager.get_description(StateType::AwaitingInfo);

    assert!(description.is_ok());
    assert!(description.unwrap().contains("Aguardando informações"));
}

#[test]
fn test_get_description_after_setting_values() {
    let mut manager = create_awaiting_info_manager();

    manager.execute(set_amount(9999)).unwrap();
    manager.execute(set_payment_type(PaymentType::Debit)).unwrap();

    let description = manager.get_description(StateType::AwaitingInfo).unwrap();

    assert!(description.contains("99.99"));
    assert!(description.contains("Debit"));
}

#[test]
fn test_get_description_for_emv_payment() {
    let manager = create_emv_payment_manager(15000, PaymentType::Credit);

    let description = manager.get_description(StateType::EMVPayment).unwrap();

    assert!(description.contains("150.00"));
}

#[test]
fn test_wrong_state_type_returns_error() {
    let mut manager = create_awaiting_info_manager();

    // An EMVPayment action submitted while in AwaitingInfo.
    let result = manager.execute(StateAction::EmvPayment(EmvPaymentAction::ProcessPayment));

    assert!(result.is_err());
    assert!(result.unwrap_err().message().contains("incompatível"));
}

#[test]
fn test_wrong_description_type_returns_error() {
    let manager = create_awaiting_info_manager();

    let result = manager.get_description(StateType::EMVPayment);

    assert!(result.is_err());
}

#[test]
fn test_concurrent_state_reads() {
    let manager = create_awaiting_info_manager();

    // Ten independent reads all observe the same state.
    for _ in 0..10 {
        let state_type = manager.get_current_state_type();
        assert_eq!(state_type, StateType::AwaitingInfo);
    }
}

#[test]
fn test_sequential_actions_maintain_consistency() {
    let mut manager = create_awaiting_info_manager();

    for i in 1..=5i64 {
        let result = manager.execute(set_amount(i * 1000));

        assert!(result.is_ok());
    }

    assert_eq!(manager.get_current_state_type(), StateType::AwaitingInfo);
}

#[test]
fn test_event_contains_timestamp() {
    let mut manager = create_awaiting_info_manager();

    manager.execute(set_amount(10000)).unwrap();
    manager.execute(set_payment_type(PaymentType::Credit)).unwrap();
    manager
        .execute(StateAction::AwaitingInfo(AwaitingInfoAction::ConfirmInfo))
        .unwrap();

    let event = manager.try_next_event().unwrap();
    assert!(!event.timestamp.is_empty());

    // The timestamp must be a well-formed RFC 3339 instant.
    assert!(chrono::DateTime::parse_from_rfc3339(&event.timestamp).is_ok());
}

#[test]
fn test_multiple_transitions_generate_multiple_events() {
    let mut manager = create_awaiting_info_manager();

    manager.execute(set_amount(10000)).unwrap();
    manager.execute(set_payment_type(PaymentType::Credit)).unwrap();
    manager
        .execute(StateAction::AwaitingInfo(AwaitingInfoAction::ConfirmInfo))
        .unwrap();

    let event1 = manager.try_next_event().unwrap();
    assert_eq!(event1.from_state, StateType::AwaitingInfo);
    assert_eq!(event1.to_state, StateType::EMVPayment);

    manager
        .execute(StateAction::EmvPayment(EmvPaymentAction::CancelPayment))
        .unwrap();

    let event2 = manager.try_next_event().unwrap();
    assert_eq!(event2.from_state, StateType::EMVPayment);
    assert_eq!(event2.to_state, StateType::AwaitingInfo);
}
