use protocol::blockchain::{drop_mempool, keep_confirmed, Delivery, HistoryEntry, Pending, TxInfo, TxInfo0};

#[test]
fn answers_reach_their_own_request_in_any_order() {
    let mut p: Pending<&str> = Pending::new();
    let a = p.register("a").unwrap();
    let b = p.register("b").unwrap();
    assert_eq!((a, b), (0, 1));
    match p.route("{\"id\":1,\"result\":\"B\"}".to_string()) {
        Delivery::Response(slot, line) => {
            assert_eq!(slot, "b");
            assert!(line.contains("\"B\""));
        }
        _ => panic!("expected a response"),
    }
    match p.route("{\"result\":\"A\",\"id\":0}".to_string()) {
        Delivery::Response(slot, _) => assert_eq!(slot, "a"),
        _ => panic!("expected a response"),
    }
    assert!(p.slots.is_empty());
}

#[test]
fn duplicate_answer_is_dropped() {
    let mut p: Pending<u8> = Pending::new();
    let id = p.register(7).unwrap();
    assert!(matches!(p.route(format!("{{\"id\":{}}}", id)), Delivery::Response(7, _)));
    assert!(matches!(p.route(format!("{{\"id\":{}}}", id)), Delivery::Dropped(_)));
}

#[test]
fn ids_are_not_reused() {
    let mut p: Pending<u8> = Pending::new();
    let a = p.register(1).unwrap();
    assert_eq!(p.take(a), Some(1));
    let b = p.register(2).unwrap();
    assert_ne!(a, b);
    assert_eq!(p.take(a), None);
}

#[test]
fn line_without_id_is_a_notification() {
    let mut p: Pending<u8> = Pending::new();
    p.register(1).unwrap();
    let line = "{\"method\":\"blockchain.headers.subscribe\",\"params\":[]}".to_string();
    match p.route(line.clone()) {
        Delivery::Notification(l) => assert_eq!(l, line),
        _ => panic!("expected a notification"),
    }
    assert!(matches!(p.route("not json".to_string()), Delivery::Notification(_)));
    assert!(matches!(p.route("{\"id\":\"x\"}".to_string()), Delivery::Notification(_)));
    assert_eq!(p.slots.len(), 1);
}

#[test]
fn exhausted_ids_refuse_registration() {
    let mut p: Pending<u8> = Pending::new();
    p.next_id = u64::MAX;
    assert_eq!(p.register(1), None);
    assert!(p.slots.is_empty());
}

#[test]
fn mempool_entries_are_left_out() {
    let history = vec![
        HistoryEntry { height: 100, tx_hash: "aa".to_string() },
        HistoryEntry { height: 0, tx_hash: "bb".to_string() },
        HistoryEntry { height: 101, tx_hash: "cc".to_string() },
        HistoryEntry { height: -1, tx_hash: "dd".to_string() },
    ];
    assert_eq!(drop_mempool(&history), vec!["aa".to_string(), "cc".to_string()]);
    assert!(drop_mempool(&vec![]).is_empty());
}

#[test]
fn transactions_below_minimum_confirmations_are_left_out() {
    let infos = vec![
        TxInfo { result: TxInfo0 { confirmations: 0, hex: vec![1] } },
        TxInfo { result: TxInfo0 { confirmations: 2, hex: vec![2] } },
        TxInfo { result: TxInfo0 { confirmations: 3, hex: vec![3] } },
        TxInfo { result: TxInfo0 { confirmations: -1, hex: vec![4] } },
    ];
    assert_eq!(keep_confirmed(&infos, 3), vec![(vec![3], 3)]);
    assert_eq!(keep_confirmed(&infos, 1), vec![(vec![2], 2), (vec![3], 3)]);
    assert_eq!(keep_confirmed(&infos, 0), vec![(vec![1], 0), (vec![2], 2), (vec![3], 3)]);
}

#[test]
fn abandoning_drops_every_slot_but_keeps_ids_used() {
    let mut p: Pending<u8> = Pending::new();
    p.register(1).unwrap();
    p.register(2).unwrap();
    p.abandon_all();
    assert!(p.slots.is_empty());
    assert_eq!(p.register(3), Some(2));
    assert!(matches!(p.route("{\"id\":0}".to_string()), Delivery::Dropped(_)));
}
