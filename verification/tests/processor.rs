use payment_engine::engine::EngineCore;
use payment_engine::event::{Event, EventType};
use payment_engine::processor::EventProcessor;

fn process_events(events: Vec<Event>) -> EventProcessor {
    let mut core = EngineCore::default();
    for event in &events {
        core.ledger.add_event(event.clone()).unwrap();
    }
    let mut processor = EventProcessor::new(core);
    for event in &events {
        processor.process(event);
    }
    processor
}

#[test]
fn test_adding_amount() {
    let events = vec![Event {
        tx_type: EventType::Deposit,
        client: 1,
        tx: 1,
        amount: Some(10),
    }];

    let processor = process_events(events);

    assert_eq!(processor.core.chart.get(&1).unwrap().available(), 10);
}

#[test]
fn test_adding_same_amount_twice() {
    let events = vec![
        Event {
            tx_type: EventType::Deposit,
            client: 1,
            tx: 1,
            amount: Some(10),
        },
        Event {
            tx_type: EventType::Deposit,
            client: 1,
            tx: 2,
            amount: Some(20),
        },
    ];

    let processor = process_events(events);

    assert_eq!(processor.core.chart.get(&1).unwrap().available(), 30);
}

#[test]
fn test_withdrawal_amount() {
    let events = vec![Event {
        tx_type: EventType::Withdrawal,
        client: 1,
        tx: 1,
        amount: Some(10),
    }];

    let processor = process_events(events);

    assert_eq!(processor.core.chart.get(&1).unwrap().available(), 0);
}

#[test]
fn test_withdrawal_amount_after_adding() {
    let events = vec![
        Event {
            tx_type: EventType::Deposit,
            client: 1,
            tx: 1,
            amount: Some(20),
        },
        Event {
            tx_type: EventType::Withdrawal,
            client: 1,
            tx: 2,
            amount: Some(5),
        },
    ];

    let processor = process_events(events);

    assert_eq!(processor.core.chart.get(&1).unwrap().available(), 15);
}

#[test]
fn test_twice_withdrawal_amount_after_adding() {
    let events = vec![
        Event {
            tx_type: EventType::Deposit,
            client: 1,
            tx: 1,
            amount: Some(20),
        },
        Event {
            tx_type: EventType::Withdrawal,
            client: 1,
            tx: 2,
            amount: Some(5),
        },
        Event {
            tx_type: EventType::Withdrawal,
            client: 1,
            tx: 3,
            amount: Some(5),
        },
    ];

    let processor = process_events(events);

    assert_eq!(processor.core.chart.get(&1).unwrap().available(), 10);
}

#[test]
fn test_dispute_on_deposit_is_ignored() {
    let events = vec![
        Event {
            tx_type: EventType::Deposit,
            client: 1,
            tx: 1,
            amount: Some(30),
        },
        Event {
            tx_type: EventType::Withdrawal,
            client: 1,
            tx: 2,
            amount: Some(20),
        },
        Event {
            tx_type: EventType::Dispute,
            client: 1,
            tx: 1,
            amount: None,
        },
    ];

    let processor = process_events(events);

    assert_eq!(processor.core.chart.get(&1).unwrap().available(), 10);
}

#[test]
fn test_dispute_on_withdrawal() {
    let events = vec![
        Event {
            tx_type: EventType::Deposit,
            client: 1,
            tx: 1,
            amount: Some(30),
        },
        Event {
            tx_type: EventType::Withdrawal,
            client: 1,
            tx: 2,
            amount: Some(20),
        },
        Event {
            tx_type: EventType::Dispute,
            client: 1,
            tx: 2,
            amount: None,
        },
    ];

    let processor = process_events(events);

    assert_eq!(processor.core.chart.get(&1).unwrap().available(), 10);
    assert_eq!(processor.core.chart.get(&1).unwrap().held(), 20);
    assert_eq!(processor.core.chart.get(&1).unwrap().total(), 30);
}

#[test]
fn test_dispute_on_withdrawal_with_resolve() {
    let events = vec![
        Event {
            tx_type: EventType::Deposit,
            client: 1,
            tx: 1,
            amount: Some(30),
        },
        Event {
            tx_type: EventType::Withdrawal,
            client: 1,
            tx: 2,
            amount: Some(20),
        },
        Event {
            tx_type: EventType::Dispute,
            client: 1,
            tx: 2,
            amount: None,
        },
        Event {
            tx_type: EventType::Resolve,
            client: 1,
            tx: 2,
            amount: None,
        },
    ];

    let processor = process_events(events);

    assert_eq!(processor.core.chart.get(&1).unwrap().available(), 30);
    assert_eq!(processor.core.chart.get(&1).unwrap().held(), 0);
    assert_eq!(processor.core.chart.get(&1).unwrap().total(), 30);
}

#[test]
fn test_dispute_on_withdrawal_with_chargeback() {
    let events = vec![
        Event {
            tx_type: EventType::Deposit,
            client: 1,
            tx: 1,
            amount: Some(30),
        },
        Event {
            tx_type: EventType::Withdrawal,
            client: 1,
            tx: 2,
            amount: Some(20),
        },
        Event {
            tx_type: EventType::Dispute,
            client: 1,
            tx: 2,
            amount: None,
        },
        Event {
            tx_type: EventType::Chargeback,
            client: 1,
            tx: 2,
            amount: None,
        },
    ];

    let processor = process_events(events);

    assert_eq!(processor.core.chart.get(&1).unwrap().available(), 10);
    assert_eq!(processor.core.chart.get(&1).unwrap().held(), 0);
    assert_eq!(processor.core.chart.get(&1).unwrap().total(), 10);
    assert!(processor.core.chart.get(&1).unwrap().locked());
}

#[test]
fn test_dispute_on_withdrawal_with_chargeback_disables_withdrawal() {
    let events = vec![
        Event {
            tx_type: EventType::Deposit,
            client: 1,
            tx: 1,
            amount: Some(30),
        },
        Event {
            tx_type: EventType::Withdrawal,
            client: 1,
            tx: 2,
            amount: Some(20),
        },
        Event {
            tx_type: EventType::Dispute,
            client: 1,
            tx: 2,
            amount: None,
        },
        Event {
            tx_type: EventType::Chargeback,
            client: 1,
            tx: 2,
            amount: None,
        },
        Event {
            tx_type: EventType::Withdrawal,
            client: 1,
            tx: 3,
            amount: Some(10),
        },
    ];

    let processor = process_events(events);

    assert_eq!(processor.core.chart.get(&1).unwrap().available(), 10);
    assert_eq!(processor.core.chart.get(&1).unwrap().held(), 0);
    assert_eq!(processor.core.chart.get(&1).unwrap().total(), 10);
    assert!(processor.core.chart.get(&1).unwrap().locked());
}

#[test]
fn test_deposit_overflow_is_a_no_op() {
    let events = vec![
        Event {
            tx_type: EventType::Deposit,
            client: 1,
            tx: 1,
            amount: Some(i64::MAX),
        },
        Event {
            tx_type: EventType::Deposit,
            client: 1,
            tx: 2,
            amount: Some(1),
        },
    ];

    let processor = process_events(events);

    // The second deposit would overflow the fixed-point range, so the
    // account is left unchanged.
    assert_eq!(processor.core.chart.get(&1).unwrap().available(), i64::MAX);
}

#[test]
fn test_is_shutdown() {
    let processor = EventProcessor::new(EngineCore::default());
    assert!(!processor.is_shutdown());
}
