//! Unit checks of identifiers, text rendering, wallet primitives, security
//! guards, query pagination, and validation limits.

use agent_registry::errors::ContractError;
use agent_registry::exec_agents::{self, must_pay};
use agent_registry::exec_services::compute_fee;
use agent_registry::ids::{generate_agent_id, generate_service_id, validate_agent_name};
use agent_registry::notices;
use agent_registry::queries;
use agent_registry::security::{
    EmergencyPause, OperationTracker, RateLimit, SecurityChecks, MAX_DESCRIPTION_LENGTH,
    MAX_ESCROW_ID_LENGTH, MAX_TITLE_LENGTH, MAX_WHITELIST_SIZE,
};
use agent_registry::state::{AgentWallet, State};
use agent_registry::store::StrMap;
use agent_registry::text::{dec_u128, dec_u64, hex_u64};
use agent_registry::types::{Coin, PurchaseOrderStatus};
use agent_registry::wallet;

#[test]
fn test_gas_optimization_constants() {
    // Test that our constants are reasonable for gas optimization
    assert!(MAX_ESCROW_ID_LENGTH <= 64);
    assert!(MAX_TITLE_LENGTH <= 128);
    assert!(MAX_DESCRIPTION_LENGTH <= 512);
    assert!(MAX_WHITELIST_SIZE <= 50);
}

#[test]
fn decimal_and_hex_rendering() {
    assert_eq!(dec_u128(0), "0");
    assert_eq!(dec_u128(7), "7");
    assert_eq!(dec_u128(12345), "12345");
    assert_eq!(dec_u128(u128::MAX), format!("{}", u128::MAX));
    assert_eq!(dec_u64(987654321), "987654321");
    assert_eq!(hex_u64(0), "0");
    assert_eq!(hex_u64(255), "ff");
    assert_eq!(hex_u64(0xdeadbeef), "deadbeef");
}

#[test]
fn agent_id_matches_owner_fold() {
    // the tag folds the first eight characters base 256
    let mut tag: u64 = 0;
    for c in "alice".chars().take(8) {
        tag = tag.wrapping_mul(256).wrapping_add((c as u32 % 256) as u64);
    }
    let expected = format!("agent_{:x}_{}", tag, 3);
    assert_eq!(generate_agent_id(&"alice".to_string(), 3), expected);
}

#[test]
fn service_id_borrows_agent_windows() {
    let id = generate_service_id("agent_abcd_1", "agent_wxyz_2", 9);
    assert_eq!(id, "service_abcd_wxyz_9");
    // short ids are sliced to what they have
    let id = generate_service_id("agent_a", "agent_b", 1);
    assert_eq!(id, "service_a_b_1");
}

#[test]
fn name_validation_rules() {
    assert!(validate_agent_name("a good-name_0").is_ok());
    assert!(matches!(
        validate_agent_name(""),
        Err(ContractError::InvalidAgentName { .. })
    ));
    let long = "x".repeat(65);
    assert!(matches!(
        validate_agent_name(&long),
        Err(ContractError::InvalidAgentName { .. })
    ));
    assert!(matches!(
        validate_agent_name("bad!name"),
        Err(ContractError::InvalidAgentName { .. })
    ));
    let exactly = "y".repeat(64);
    assert!(validate_agent_name(&exactly).is_ok());
}

#[test]
fn fee_computation_rounds_down() {
    assert_eq!(compute_fee(1000, 250), 25);
    assert_eq!(compute_fee(1000, 0), 0);
    assert_eq!(compute_fee(1, 250), 0);
    assert_eq!(compute_fee(10000, 10000), 10000);
    assert_eq!(compute_fee(999, 250), 24);
    // no overflow near the top of the range
    assert_eq!(compute_fee(u128::MAX, 10000), u128::MAX);
}

#[test]
fn must_pay_checks_the_attached_funds() {
    let denom = "usdc".to_string();
    assert!(matches!(
        must_pay(&vec![], &denom),
        Err(ContractError::NoFunds { .. })
    ));
    let two = vec![
        Coin { denom: "usdc".to_string(), amount: 1 },
        Coin { denom: "atom".to_string(), amount: 1 },
    ];
    assert!(matches!(
        must_pay(&two, &denom),
        Err(ContractError::MultipleDenoms { .. })
    ));
    let zero = vec![Coin { denom: "usdc".to_string(), amount: 0 }];
    assert!(matches!(
        must_pay(&zero, &denom),
        Err(ContractError::NoFunds { .. })
    ));
    let wrong = vec![Coin { denom: "atom".to_string(), amount: 5 }];
    assert!(matches!(
        must_pay(&wrong, &denom),
        Err(ContractError::MissingDenom { .. })
    ));
    let good = vec![Coin { denom: "usdc".to_string(), amount: 5 }];
    assert_eq!(must_pay(&good, &denom).unwrap(), 5);
}

#[test]
fn wallet_primitives() {
    let mut wallets: StrMap<AgentWallet> = StrMap::new();
    let id = "agent_1_1".to_string();
    wallets.insert(id.clone(), AgentWallet { balance: 100, locked_balance: 0 });
    wallet::credit(&mut wallets, &id, 50).unwrap();
    assert_eq!(wallets.get(&id).unwrap().balance, 150);
    wallet::lock(&mut wallets, &id, 120).unwrap();
    assert_eq!(wallets.get(&id).unwrap().locked_balance, 120);
    // headroom is balance minus locked
    let r = wallet::debit(&mut wallets, &id, 40);
    match r {
        Err(ContractError::InsufficientBalance { required, available }) => {
            assert_eq!(required, 40);
            assert_eq!(available, 30);
        },
        _ => panic!("expected InsufficientBalance"),
    }
    wallet::unlock_and_settle(&mut wallets, &id, 70).unwrap();
    let w = *wallets.get(&id).unwrap();
    assert_eq!(w.balance, 80);
    assert_eq!(w.locked_balance, 50);
    wallet::release_lock(&mut wallets, &id, 50).unwrap();
    let w = *wallets.get(&id).unwrap();
    assert_eq!(w.balance, 80);
    assert_eq!(w.locked_balance, 0);
    // a missing wallet is reported
    assert!(matches!(
        wallet::credit(&mut wallets, &"agent_2_2".to_string(), 1),
        Err(ContractError::WalletNotInitialized { .. })
    ));
}

#[test]
fn ordered_store_sorts_keys() {
    let mut m: StrMap<u64> = StrMap::new();
    m.insert("pear".to_string(), 2);
    m.insert("apple".to_string(), 1);
    m.insert("quince".to_string(), 3);
    m.insert("apple".to_string(), 9);
    assert_eq!(m.len(), 3);
    assert_eq!(m.key_at(0), "apple");
    assert_eq!(m.key_at(1), "pear");
    assert_eq!(m.key_at(2), "quince");
    assert_eq!(*m.get(&"apple".to_string()).unwrap(), 9);
    assert!(m.get(&"plum".to_string()).is_none());
}

#[test]
fn security_guards() {
    assert!(SecurityChecks::validate_permission(&"a".to_string(), &"a".to_string()).is_ok());
    assert!(SecurityChecks::validate_permission(&"a".to_string(), &"b".to_string()).is_err());
    assert!(SecurityChecks::check_no_reentrancy(false).is_ok());
    assert!(SecurityChecks::check_no_reentrancy(true).is_err());
    assert!(SecurityChecks::check_not_paused(false).is_ok());
    assert!(SecurityChecks::check_not_paused(true).is_err());
    assert!(SecurityChecks::validate_amount_bounds(5, 1, 10).is_ok());
    assert!(SecurityChecks::validate_amount_bounds(0, 1, 10).is_err());
    assert!(SecurityChecks::validate_amount_bounds(11, 1, 10).is_err());
    let blacklist = vec!["evil".to_string()];
    assert!(SecurityChecks::check_not_blacklisted(&"good".to_string(), &blacklist).is_ok());
    assert!(SecurityChecks::check_not_blacklisted(&"evil".to_string(), &blacklist).is_err());
}

#[test]
fn emergency_pause_cycle() {
    let mut p = EmergencyPause::new();
    assert!(!p.is_paused);
    assert!(p.unpause().is_err());
    p.pause(42, "ops".to_string()).unwrap();
    assert!(p.is_paused);
    assert_eq!(p.paused_at, Some(42));
    assert!(p.pause(43, "ops".to_string()).is_err());
    p.unpause().unwrap();
    assert!(!p.is_paused);
}

#[test]
fn rate_limit_window() {
    let limit = RateLimit { max_operations: 2, time_window: 10 };
    let mut tracker = OperationTracker { address: "a".to_string(), count: 0, window_start: 0 };
    assert!(limit.check_and_update(&mut tracker, 1).is_ok());
    assert!(limit.check_and_update(&mut tracker, 2).is_ok());
    assert!(limit.check_and_update(&mut tracker, 3).is_err());
    // a fresh window resets the count
    assert!(limit.check_and_update(&mut tracker, 20000000000).is_ok());
    assert_eq!(tracker.count, 1);
}

#[test]
fn range_helpers() {
    assert!(agent_registry::security::is_within_range(5, 1, 10));
    assert!(!agent_registry::security::is_within_range(0, 1, 10));
    assert_eq!(agent_registry::security::min_u128(3, 9), 3);
    assert_eq!(agent_registry::security::max_u128(3, 9), 9);
    let err = agent_registry::security::validate_amount_nonzero(&0, "usdc").unwrap_err();
    assert_eq!(err, "Amount must be greater than 0 for usdc");
    assert!(agent_registry::security::validate_amount_nonzero(&1, "usdc").is_ok());
}

#[test]
fn notice_texts() {
    let t = notices::po_created_notice_string(
        &"PO-1-2000".to_string(),
        &"agent_1_1".to_string(),
        300,
        1,
        &"by truck".to_string(),
    );
    assert_eq!(
        t,
        "{\"buyer\":\"agent_1_1\",\"delivery_terms\":\"by truck\",\"items_count\":1,\"po_id\":\"PO-1-2000\",\"total_amount\":\"300\"}"
    );
    let t = notices::receipt_notice_string(&"PO-1-2000".to_string(), &"agent_1_1".to_string(), 7);
    assert_eq!(
        t,
        "{\"confirmation_time\":7,\"confirmed_by\":\"agent_1_1\",\"po_id\":\"PO-1-2000\"}"
    );
    assert_eq!(notices::status_label_str(PurchaseOrderStatus::Accepted), "Accepted");
}

fn seeded_state(names: &[&str]) -> (State, Vec<String>) {
    let mut state =
        exec_agents::instantiate("creator".to_string(), "usdc".to_string(), 0, 250).unwrap();
    let mut ids = Vec::new();
    for owner in names {
        let counter = state.config.next_agent_id;
        exec_agents::register_agent(
            &mut state,
            &owner.to_string(),
            &vec![],
            1000,
            format!("{}-agent", owner),
            "d".to_string(),
            vec!["compute".to_string()],
            vec![],
            None,
        )
        .unwrap();
        ids.push(generate_agent_id(&owner.to_string(), counter));
    }
    (state, ids)
}

#[test]
fn list_agents_pagination() {
    let (state, mut ids) = seeded_state(&["alice", "bob", "carol", "dave"]);
    ids.sort();
    let all = queries::list_agents(&state, None, None);
    assert_eq!(all.agents.len(), 4);
    for (i, info) in all.agents.iter().enumerate() {
        assert_eq!(info.agent_id, ids[i]);
    }
    let page = queries::list_agents(&state, None, Some(2));
    assert_eq!(page.agents.len(), 2);
    assert_eq!(page.agents[0].agent_id, ids[0]);
    let rest = queries::list_agents(&state, Some(ids[1].clone()), None);
    assert_eq!(rest.agents.len(), 2);
    assert_eq!(rest.agents[0].agent_id, ids[2]);
}

#[test]
fn capability_search() {
    let (state, mut ids) = seeded_state(&["alice", "bob"]);
    ids.sort();
    let r = queries::agents_by_capability(&state, "compute".to_string(), None, None);
    assert_eq!(r.agents.len(), 2);
    let r = queries::agents_by_capability(&state, "storage".to_string(), None, None);
    assert_eq!(r.agents.len(), 0);
    // the cursor skips past the named entry
    let r = queries::agents_by_capability(&state, "compute".to_string(), Some(ids[0].clone()), None);
    assert_eq!(r.agents.len(), 1);
    assert_eq!(r.agents[0].agent_id, ids[1]);
}

#[test]
fn transaction_history_is_descending() {
    let (mut state, ids) = seeded_state(&["alice"]);
    let x = ids[0].clone();
    for amount in [10u128, 20, 30] {
        exec_agents::fund_agent(
            &mut state,
            &"alice".to_string(),
            &vec![Coin { denom: "usdc".to_string(), amount }],
            1000,
            x.clone(),
        )
        .unwrap();
    }
    let h = queries::transaction_history(&state, x.clone(), None, None).unwrap();
    assert_eq!(h.transactions.len(), 3);
    assert_eq!(h.transactions[0].tx_id, 3);
    assert_eq!(h.transactions[0].amount.amount, 30);
    assert_eq!(h.transactions[2].tx_id, 1);
    // the cursor bounds ids from above
    let h = queries::transaction_history(&state, x.clone(), Some(3), None).unwrap();
    assert_eq!(h.transactions.len(), 2);
    assert_eq!(h.transactions[0].tx_id, 2);
}

#[test]
fn draft_cannot_be_accepted_directly() {
    let (mut state, ids) = seeded_state(&["buyer", "seller"]);
    let (b, s) = (ids[0].clone(), ids[1].clone());
    let resp = agent_registry::exec_procurement::create_purchase_order(
        &mut state,
        &"buyer".to_string(),
        2000,
        b.clone(),
        s.clone(),
        vec![],
        "d".to_string(),
        agent_registry::types::PaymentTerms {
            payment_type: agent_registry::types::PaymentType::Net,
            deposit_percentage: None,
            net_days: 10,
        },
        None,
    )
    .unwrap();
    let po_id = resp.attributes[1].value.clone();
    let r = agent_registry::exec_procurement::update_purchase_order(
        &mut state,
        &"seller".to_string(),
        2001,
        po_id.clone(),
        PurchaseOrderStatus::Accepted,
        s.clone(),
        None,
    );
    match r {
        Err(ContractError::InvalidOperation { operation }) => {
            assert_eq!(operation, "Invalid status transition from Draft to Accepted");
        },
        _ => panic!("expected InvalidOperation"),
    }
}

#[test]
fn update_agent_profile() {
    let (mut state, ids) = seeded_state(&["alice"]);
    let x = ids[0].clone();
    // only the owner may update
    let r = exec_agents::update_agent(
        &mut state,
        &"mallory".to_string(),
        1500,
        x.clone(),
        Some("new name".to_string()),
        None,
        None,
        None,
    );
    assert!(matches!(r, Err(ContractError::Unauthorized { .. })));
    exec_agents::update_agent(
        &mut state,
        &"alice".to_string(),
        1500,
        x.clone(),
        Some("new name".to_string()),
        Some("better".to_string()),
        Some(vec!["storage".to_string()]),
        None,
    )
    .unwrap();
    let a = queries::agent(&state, x.clone()).unwrap();
    assert_eq!(a.name, "new name");
    assert_eq!(a.description, "better");
    assert_eq!(a.capabilities, vec!["storage".to_string()]);
    assert_eq!(a.last_active, 1500);
    // a bad replacement name is rejected
    let r = exec_agents::update_agent(
        &mut state,
        &"alice".to_string(),
        1501,
        x.clone(),
        Some("bad!name".to_string()),
        None,
        None,
        None,
    );
    assert!(matches!(r, Err(ContractError::InvalidAgentName { .. })));
}

#[test]
fn list_services_filters() {
    let (mut state, ids) = seeded_state(&["alice", "bob"]);
    let (x, y) = (ids[0].clone(), ids[1].clone());
    exec_agents::fund_agent(
        &mut state,
        &"alice".to_string(),
        &vec![Coin { denom: "usdc".to_string(), amount: 1000 }],
        1000,
        x.clone(),
    )
    .unwrap();
    let r1 = agent_registry::exec_services::request_service(
        &mut state,
        &"alice".to_string(),
        1100,
        x.clone(),
        y.clone(),
        "a".to_string(),
        Coin { denom: "usdc".to_string(), amount: 100 },
        "{}".to_string(),
    )
    .unwrap();
    let sid1 = r1.attributes[1].value.clone();
    agent_registry::exec_services::request_service(
        &mut state,
        &"alice".to_string(),
        1100,
        x.clone(),
        y.clone(),
        "b".to_string(),
        Coin { denom: "usdc".to_string(), amount: 200 },
        "{}".to_string(),
    )
    .unwrap();
    agent_registry::exec_services::complete_service(
        &mut state,
        &"bob".to_string(),
        1200,
        sid1,
        "ok".to_string(),
    )
    .unwrap();
    let all = queries::list_services(&state, None, None, None, None);
    assert_eq!(all.services.len(), 2);
    let pending = queries::list_services(
        &state,
        None,
        Some(agent_registry::types::ServiceStatus::Pending),
        None,
        None,
    );
    assert_eq!(pending.services.len(), 1);
    assert_eq!(pending.services[0].payment.amount, 200);
    let none = queries::list_services(
        &state,
        Some("agent_0_42".to_string()),
        None,
        None,
        None,
    );
    assert_eq!(none.services.len(), 0);
}

#[test]
fn agent_messages_query_merges_boxes() {
    let (mut state, ids) = seeded_state(&["alice", "bob"]);
    let (x, y) = (ids[0].clone(), ids[1].clone());
    agent_registry::exec_messages::send_message(
        &mut state,
        &"alice".to_string(),
        1100,
        x.clone(),
        y.clone(),
        agent_registry::types::MessageType::Information,
        "one".to_string(),
        false,
    )
    .unwrap();
    agent_registry::exec_messages::send_message(
        &mut state,
        &"bob".to_string(),
        1101,
        y.clone(),
        x.clone(),
        agent_registry::types::MessageType::Alert,
        "two".to_string(),
        false,
    )
    .unwrap();
    // alice sees both: one sent, one received
    let m = queries::agent_messages(&state, x.clone(), None, None, None).unwrap();
    assert_eq!(m.messages.len(), 2);
    // the type filter narrows to the alert
    let m = queries::agent_messages(
        &state,
        x.clone(),
        Some(agent_registry::types::MessageType::Alert),
        None,
        None,
    )
    .unwrap();
    assert_eq!(m.messages.len(), 1);
    assert_eq!(m.messages[0].content, "two");
}

#[test]
fn error_kind_labels() {
    let e = ContractError::InsufficientBalance { required: 2, available: 1 };
    assert_eq!(e.kind_label(), "insufficient_balance");
    let e = ContractError::Unauthorized { reason: "no".to_string() };
    assert_eq!(e.kind_label(), "unauthorized");
    let e = ContractError::Overflow {};
    assert_eq!(e.kind_label(), "overflow");
}
