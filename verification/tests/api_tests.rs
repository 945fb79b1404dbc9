use payment_engine::api::PaymentStateApi;
use payment_engine::awaiting_info::{AwaitingInfoAction, PaymentType};
use payment_engine::emv_payment::{EmvPaymentAction, EmvResult};
use payment_engine::payment_success::PaymentSuccessAction;
use payment_engine::types::{ErrorKind, StateAction, StateType};

fn set_amount(amount_cents: i64) -> StateAction {
    StateAction::AwaitingInfo(AwaitingInfoAction::SetAmount { amount_cents })
}

fn set_payment_type(payment_type: PaymentType) -> StateAction {
    StateAction::AwaitingInfo(AwaitingInfoAction::SetPaymentType { payment_type })
}

fn confirm_info() -> StateAction {
    StateAction::AwaitingInfo(AwaitingInfoAction::ConfirmInfo)
}

#[test]
fn test_api_initialization() {
    let api = PaymentStateApi::new();
    assert_eq!(api.current_state(), StateType::AwaitingInfo);
}

#[test]
fn test_api_simple_execution() {
    let mut api = PaymentStateApi::new();

    let result = api.execute(set_amount(10000));
    assert!(result.is_ok());
}

#[test]
fn test_api_full_flow() {
    let mut api = PaymentStateApi::new();

    api.execute(set_amount(15000)).unwrap();

    api.execute(set_payment_type(PaymentType::Credit)).unwrap();

    api.execute(confirm_info()).unwrap();

    assert_eq!(api.current_state(), StateType::EMVPayment);

    let event = api.try_next_event().expect("a state-change event");
    assert_eq!(event.from_state, StateType::AwaitingInfo);
    assert_eq!(event.to_state, StateType::EMVPayment);
}

#[test]
fn test_api_try_next_event_when_empty() {
    let mut api = PaymentStateApi::new();

    let result = api.try_next_event();
    assert!(result.is_none());
}

#[test]
fn test_api_get_description() {
    let api = PaymentStateApi::new();

    let description = api.get_awaiting_info_description();
    assert!(description.is_ok());
    assert!(description.unwrap().contains("Aguardando"));
}

#[test]
fn test_api_concurrent_access() {
    let mut api = PaymentStateApi::new();

    // Five submissions in a row; each is serialized by the runtime and
    // succeeds without a transition.
    for i in 0..5i64 {
        let result = api.execute(set_amount((i * 10 + 100) * 100));
        assert!(result.is_ok());
    }
}

#[test]
fn test_execute_messages() {
    let mut api = PaymentStateApi::new();

    let stayed = api.execute(set_amount(10000)).unwrap();
    assert_eq!(stayed, "Ação executada - permanece no mesmo estado");

    api.execute(set_payment_type(PaymentType::Credit)).unwrap();
    let moved = api.execute(confirm_info()).unwrap();
    assert_eq!(moved, "Transicionado para EMVPayment");
}

#[test]
fn test_api_error_handling() {
    let mut api = PaymentStateApi::new();

    let result = api.execute(set_amount(-5000));
    assert!(result.is_err());
}

#[test]
fn test_api_complete_payment_cycle() {
    let mut api = PaymentStateApi::new();

    api.execute(set_amount(30000)).unwrap();
    api.execute(set_payment_type(PaymentType::Debit)).unwrap();
    api.execute(confirm_info()).unwrap();

    assert_eq!(api.current_state(), StateType::EMVPayment);

    api.execute(StateAction::EmvPayment(EmvPaymentAction::ProcessPayment))
        .unwrap();

    let emv_result = EmvResult {
        transaction_id: "TXN999".to_string(),
        authorization_code: "AUTH999".to_string(),
        timestamp: chrono::Utc::now().to_rfc3339(),
    };

    api.execute(StateAction::EmvPayment(EmvPaymentAction::CompletePayment {
        result: emv_result,
    }))
    .unwrap();

    assert_eq!(api.current_state(), StateType::PaymentSuccess);

    let event1 = api.try_next_event().unwrap();
    assert_eq!(event1.to_state, StateType::EMVPayment);

    let event2 = api.try_next_event().unwrap();
    assert_eq!(event2.to_state, StateType::PaymentSuccess);
}

#[test]
fn test_round_trip_full_flow() {
    // From the start: amount, type, confirm; exactly one event fires for the
    // confirm, none for the in-place processing step, one for completion.
    let mut api = PaymentStateApi::new();

    api.execute(set_amount(10000)).unwrap();
    api.execute(set_payment_type(PaymentType::Credit)).unwrap();
    api.execute(confirm_info()).unwrap();

    assert_eq!(api.current_state(), StateType::EMVPayment);
    let event = api.try_next_event().unwrap();
    assert_eq!(event.from_state, StateType::AwaitingInfo);
    assert_eq!(event.to_state, StateType::EMVPayment);
    assert!(api.try_next_event().is_none());

    api.execute(StateAction::EmvPayment(EmvPaymentAction::ProcessPayment))
        .unwrap();
    assert_eq!(api.current_state(), StateType::EMVPayment);
    assert!(api.try_next_event().is_none());

    let emv_result = EmvResult {
        transaction_id: "TXN1".to_string(),
        authorization_code: "AUTH1".to_string(),
        timestamp: chrono::Utc::now().to_rfc3339(),
    };
    api.execute(StateAction::EmvPayment(EmvPaymentAction::CompletePayment {
        result: emv_result,
    }))
    .unwrap();

    assert_eq!(api.current_state(), StateType::PaymentSuccess);
    let event = api.try_next_event().unwrap();
    assert_eq!(event.from_state, StateType::EMVPayment);
    assert_eq!(event.to_state, StateType::PaymentSuccess);
    assert!(api.try_next_event().is_none());
}

#[test]
fn test_validation_boundary_keeps_state() {
    let mut api = PaymentStateApi::new();

    let result = api.execute(set_amount(-1000));

    let err = result.unwrap_err();
    assert_eq!(err.kind(), ErrorKind::Validation);
    assert_eq!(api.current_state(), StateType::AwaitingInfo);
    assert!(api.try_next_event().is_none());
}

#[test]
fn test_wrong_action_rejected_as_incompatible() {
    let mut api = PaymentStateApi::new();

    let result = api.execute(StateAction::EmvPayment(EmvPaymentAction::ProcessPayment));

    let err = result.unwrap_err();
    assert_eq!(err.kind(), ErrorKind::Incompatible);
    assert_eq!(err.message(), "Ação incompatível");
    assert_eq!(api.current_state(), StateType::AwaitingInfo);
}

#[test]
fn test_cancel_constructs_fresh_state() {
    let mut api = PaymentStateApi::new();

    api.execute(set_amount(10000)).unwrap();
    api.execute(set_payment_type(PaymentType::Credit)).unwrap();
    api.execute(confirm_info()).unwrap();
    assert_eq!(api.current_state(), StateType::EMVPayment);

    api.execute(StateAction::EmvPayment(EmvPaymentAction::CancelPayment))
        .unwrap();
    assert_eq!(api.current_state(), StateType::AwaitingInfo);

    // The successor is freshly constructed: nothing set any more.
    let description = api.get_awaiting_info_description().unwrap();
    assert_eq!(description, "Aguardando informações do pagamento");
}

#[test]
fn test_events_delivered_in_commit_order() {
    let mut api = PaymentStateApi::new();

    api.execute(set_amount(10000)).unwrap();
    api.execute(set_payment_type(PaymentType::Credit)).unwrap();
    api.execute(confirm_info()).unwrap();
    api.execute(StateAction::EmvPayment(EmvPaymentAction::CancelPayment))
        .unwrap();
    api.execute(set_amount(20000)).unwrap();
    api.execute(set_payment_type(PaymentType::Debit)).unwrap();
    api.execute(confirm_info()).unwrap();

    let transitions: Vec<(StateType, StateType)> = [
        api.try_next_event().unwrap(),
        api.try_next_event().unwrap(),
        api.try_next_event().unwrap(),
    ]
    .iter()
    .map(|e| (e.from_state, e.to_state))
    .collect();

    assert_eq!(
        transitions,
        vec![
            (StateType::AwaitingInfo, StateType::EMVPayment),
            (StateType::EMVPayment, StateType::AwaitingInfo),
            (StateType::AwaitingInfo, StateType::EMVPayment),
        ]
    );
    assert!(api.try_next_event().is_none());
}

#[test]
fn test_descriptions_exact() {
    let mut api = PaymentStateApi::new();

    api.execute(set_amount(9999)).unwrap();
    api.execute(set_payment_type(PaymentType::Debit)).unwrap();
    assert_eq!(
        api.get_awaiting_info_description().unwrap(),
        "Aguardando confirmação: R$ 99.99 (Debit)"
    );

    api.execute(confirm_info()).unwrap();
    assert_eq!(
        api.get_emv_payment_description().unwrap(),
        "Pronto para processar pagamento de R$ 99.99"
    );

    api.execute(StateAction::EmvPayment(EmvPaymentAction::ProcessPayment))
        .unwrap();
    assert_eq!(
        api.get_emv_payment_description().unwrap(),
        "Processando pagamento de R$ 99.99..."
    );

    let emv_result = EmvResult {
        transaction_id: "TXN42".to_string(),
        authorization_code: "AUTH7".to_string(),
        timestamp: chrono::Utc::now().to_rfc3339(),
    };
    api.execute(StateAction::EmvPayment(EmvPaymentAction::CompletePayment {
        result: emv_result,
    }))
    .unwrap();
    assert_eq!(
        api.get_payment_success_description().unwrap(),
        "Pagamento concluído com sucesso - ID: TXN42, Código: AUTH7, Valor: R$ 99.99"
    );
}

#[test]
fn test_precondition_errors() {
    let mut api = PaymentStateApi::new();

    // Confirming before anything is set: the amount is reported first.
    let err = api.execute(confirm_info()).unwrap_err();
    assert_eq!(err.kind(), ErrorKind::Precondition);
    assert_eq!(err.message(), "Valor não definido");

    api.execute(set_amount(5000)).unwrap();
    let err = api.execute(confirm_info()).unwrap_err();
    assert_eq!(err.message(), "Tipo de pagamento não definido");

    api.execute(set_payment_type(PaymentType::Credit)).unwrap();
    api.execute(confirm_info()).unwrap();

    // Completing before processing started.
    let emv_result = EmvResult {
        transaction_id: "TXN0".to_string(),
        authorization_code: "AUTH0".to_string(),
        timestamp: chrono::Utc::now().to_rfc3339(),
    };
    let err = api
        .execute(StateAction::EmvPayment(EmvPaymentAction::CompletePayment {
            result: emv_result,
        }))
        .unwrap_err();
    assert_eq!(err.message(), "Pagamento ainda não foi iniciado");

    // Processing twice.
    api.execute(StateAction::EmvPayment(EmvPaymentAction::ProcessPayment))
        .unwrap();
    let err = api
        .execute(StateAction::EmvPayment(EmvPaymentAction::ProcessPayment))
        .unwrap_err();
    assert_eq!(err.kind(), ErrorKind::Precondition);
    assert_eq!(err.message(), "Pagamento já está sendo processado");
}

#[test]
fn test_reset_from_success() {
    let mut api = PaymentStateApi::new();
    api.execute(set_amount(10000)).unwrap();
    api.execute(set_payment_type(PaymentType::Credit)).unwrap();
    api.execute(confirm_info()).unwrap();
    api.execute(StateAction::EmvPayment(EmvPaymentAction::ProcessPayment))
        .unwrap();
    let emv_result = EmvResult {
        transaction_id: "TXN5".to_string(),
        authorization_code: "AUTH5".to_string(),
        timestamp: chrono::Utc::now().to_rfc3339(),
    };
    api.execute(StateAction::EmvPayment(EmvPaymentAction::CompletePayment {
        result: emv_result,
    }))
    .unwrap();
    assert_eq!(api.current_state(), StateType::PaymentSuccess);

    api.execute(StateAction::PaymentSuccess(PaymentSuccessAction::Reset))
        .unwrap();
    assert_eq!(api.current_state(), StateType::AwaitingInfo);
    assert_eq!(
        api.get_awaiting_info_description().unwrap(),
        "Aguardando informações do pagamento"
    );
}
