use payment_engine::event::Event;
use payment_engine::ledger::{DisputeEvent, Ledger, Transaction};

#[test]
fn test_initial_state() {
    let ledger = Ledger::default();
    let (transactions, disputes) = ledger.count();
    assert_eq!(transactions, 0);
    assert_eq!(disputes, 0);
}

#[test]
fn test_add_deposit() {
    let mut ledger = Ledger::default();
    let event = Event::deposit(1, 1, 10);

    assert!(ledger.add_event(event.clone()).is_ok());

    let (transactions, disputes) = ledger.count();
    assert_eq!(transactions, 1);
    assert_eq!(disputes, 0);

    assert_eq!(
        ledger.transactions.get(&1).unwrap().value(),
        &Transaction::deposit(10, 1)
    );
}

#[test]
fn test_add_withdrawal() {
    let mut ledger = Ledger::default();
    let event = Event::withdrawal(1, 1, 10);

    assert!(ledger.add_event(event.clone()).is_ok());

    let (transactions, disputes) = ledger.count();
    assert_eq!(transactions, 1);
    assert_eq!(disputes, 0);

    assert_eq!(
        ledger.transactions.get(&1).unwrap().value(),
        &Transaction::withdrawal(10, 1)
    );
}

#[test]
fn test_add_negative_withdrawal() {
    let mut ledger = Ledger::default();
    let event = Event::withdrawal(1, 1, -10);

    assert!(ledger.add_event(event.clone()).is_err());
}

#[test]
fn test_duplicate_transaction() {
    let mut ledger = Ledger::default();
    let event1 = Event::deposit(1, 1, 10);
    let event2 = Event::deposit(1, 1, 20);

    assert!(ledger.add_event(event1).is_ok());
    let result = ledger.add_event(event2);

    assert!(result.is_err());
    assert_eq!(
        result.unwrap_err().message(),
        "Transaction with ID 1 already exists"
    );
}

#[test]
fn test_add_dispute() {
    let mut ledger = Ledger::default();
    let deposit = Event::deposit(1, 1, 10);
    let dispute = Event::dispute(1, 1);

    assert!(ledger.add_event(deposit).is_ok());
    assert!(ledger.add_event(dispute.clone()).is_ok());

    let (transactions, disputes) = ledger.count();
    assert_eq!(transactions, 1);
    assert_eq!(disputes, 1);

    let disputes_vec = ledger.disputes.get(&1).unwrap();
    assert_eq!(disputes_vec.value(), &vec![DisputeEvent::Dispute]);
}

#[test]
fn test_fetch_transaction() {
    let mut ledger = Ledger::default();
    let deposit1 = Event::deposit(1, 1, 10);
    let deposit2 = Event::deposit(2, 2, 20);

    assert!(ledger.add_event(deposit1).is_ok());
    assert!(ledger.fetch_transaction(1, 1).is_some());
    assert!(ledger.fetch_transaction(1, 2).is_none());
    assert!(ledger.fetch_transaction(2, 1).is_none());

    assert!(ledger.add_event(deposit2).is_ok());
    assert!(ledger.fetch_transaction(2, 2).is_some());
    assert!(ledger.fetch_transaction(2, 1).is_none());
}

#[test]
fn test_multiple_disputes_for_same_tx() {
    let mut ledger = Ledger::default();
    let deposit = Event::deposit(1, 1, 10);
    let dispute1 = Event::dispute(1, 1);
    let dispute2 = Event::dispute(1, 1);

    assert!(ledger.add_event(deposit).is_ok());
    assert!(ledger.add_event(dispute1.clone()).is_ok());
    // A dispute cannot move to another dispute.
    assert!(ledger.add_event(dispute2.clone()).is_err());

    let disputes_vec = ledger.disputes.get(&1).unwrap();
    assert_eq!(disputes_vec.value(), &vec![DisputeEvent::Dispute]);
}

#[test]
fn test_straight_to_resolve() {
    let mut ledger = Ledger::default();
    let deposit = Event::deposit(1, 1, 10);
    let resolve = Event::resolve(1, 1);

    assert!(ledger.add_event(deposit).is_ok());
    // Only a disputed transaction can be resolved.
    assert!(ledger.add_event(resolve).is_err());

    assert!(ledger.disputes.get(&1).is_none());
}

#[test]
fn test_resolve_and_chargeback() {
    let mut ledger = Ledger::default();
    let deposit = Event::deposit(1, 1, 10);
    let dispute = Event::dispute(1, 1);
    let resolve = Event::resolve(1, 1);
    let chargeback = Event::chargeback(1, 1);

    assert!(ledger.add_event(deposit).is_ok());
    assert!(ledger.add_event(dispute).is_ok());
    assert!(ledger.add_event(resolve).is_ok());
    assert!(ledger.add_event(chargeback).is_err());

    let disputes_vec = ledger.disputes.get(&1).unwrap();
    assert_eq!(disputes_vec.value().len(), 2);
    assert_eq!(disputes_vec.value()[1], DisputeEvent::Resolve);
}

#[test]
fn test_dispute_for_nonexistent_transaction() {
    let mut ledger = Ledger::default();
    let dispute = Event::dispute(1, 1);

    assert!(ledger.add_event(dispute).is_err());

    let (transactions, disputes) = ledger.count();
    assert_eq!(transactions, 0);
    assert_eq!(disputes, 0);
}

#[test]
fn test_mixed_operations() {
    let mut ledger = Ledger::default();

    assert!(ledger.add_event(Event::deposit(1, 1, 10)).is_ok());
    assert!(ledger.add_event(Event::deposit(1, 2, 20)).is_ok());
    assert!(ledger.add_event(Event::deposit(2, 3, 30)).is_ok());

    assert!(ledger.add_event(Event::withdrawal(1, 4, 5)).is_ok());
    assert!(ledger.add_event(Event::withdrawal(2, 5, 10)).is_ok());

    assert!(ledger.add_event(Event::dispute(1, 1)).is_ok());
    assert!(ledger.add_event(Event::dispute(1, 2)).is_ok());
    assert!(ledger.add_event(Event::dispute(2, 3)).is_ok());

    assert!(ledger.add_event(Event::resolve(1, 1)).is_ok());
    assert!(ledger.add_event(Event::chargeback(1, 2)).is_ok());

    let (transactions, disputes) = ledger.count();
    assert_eq!(transactions, 5);
    assert_eq!(disputes, 3);

    assert_eq!(ledger.disputes.get(&1).unwrap().value().len(), 2);
    assert_eq!(ledger.disputes.get(&2).unwrap().value().len(), 2);
    assert_eq!(ledger.disputes.get(&3).unwrap().value().len(), 1);
}

#[test]
fn test_missing_amount_message() {
    let mut ledger = Ledger::default();
    let event = Event {
        tx_type: payment_engine::event::EventType::Deposit,
        client: 1,
        tx: 7,
        amount: None,
    };
    let result = ledger.add_event(event);
    assert_eq!(
        result.unwrap_err().message(),
        "No amount for a transaction with ID 7"
    );
}

#[test]
fn test_unknown_transaction_message() {
    let mut ledger = Ledger::default();
    let result = ledger.add_event(Event::dispute(1, 99));
    assert_eq!(
        result.unwrap_err().message(),
        "Can't find a transaction with ID 99 for client 1"
    );
}

#[test]
fn test_invalid_transition_message() {
    let mut ledger = Ledger::default();
    assert!(ledger.add_event(Event::deposit(1, 1, 10)).is_ok());
    let result = ledger.add_event(Event::chargeback(1, 1));
    assert_eq!(result.unwrap_err().message(), "Undefined transition");
}
