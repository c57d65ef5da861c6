//! End-to-end workflows over the registry state: registration, funding,
//! escrowed services, procurement, and reconciliation.

use agent_registry::dispatch;
use agent_registry::errors::ContractError;
use agent_registry::exec_agents;
use agent_registry::exec_messages;
use agent_registry::exec_procurement;
use agent_registry::exec_services;
use agent_registry::exec_transfer;
use agent_registry::ids::generate_agent_id;
use agent_registry::queries;
use agent_registry::state::State;
use agent_registry::types::{
    Coin, MessageType, PaymentTerms, PaymentType, PurchaseOrderItem, PurchaseOrderStatus,
    ServiceStatus, TransactionType, InvoiceLineItem,
};

fn usdc(amount: u128) -> Coin {
    Coin { denom: "usdc".to_string(), amount }
}

fn setup() -> State {
    exec_agents::instantiate("creator".to_string(), "usdc".to_string(), 1000000, 250).unwrap()
}

fn register(state: &mut State, owner: &str) -> String {
    let sender = owner.to_string();
    let counter = state.config.next_agent_id;
    exec_agents::register_agent(
        state,
        &sender,
        &vec![],
        1000,
        format!("{}-agent", owner),
        "an agent".to_string(),
        vec!["compute".to_string()],
        vec![],
        None,
    )
    .unwrap();
    generate_agent_id(&sender, counter)
}

fn fund(state: &mut State, owner: &str, agent_id: &str, amount: u128) {
    exec_agents::fund_agent(
        state,
        &owner.to_string(),
        &vec![usdc(amount)],
        1000,
        agent_id.to_string(),
    )
    .unwrap();
}

fn balances(state: &State, agent_id: &str) -> (u128, u128) {
    let r = queries::agent_balance(state, agent_id.to_string()).unwrap();
    (r.balance.amount, r.locked_balance.amount)
}

#[test]
fn contract_proper_initialization() {
    let state =
        exec_agents::instantiate("creator".to_string(), "usdc".to_string(), 1000000, 250).unwrap();
    assert_eq!(state.config.admin, "creator");
    assert_eq!(state.config.stablecoin_denom, "usdc");
    assert_eq!(state.config.min_agent_balance, 1000000);
    assert_eq!(state.config.service_fee_percentage, 250);
    assert_eq!(state.config.next_agent_id, 1);
    assert_eq!(state.config.next_service_id, 1);
    assert_eq!(state.config.next_tx_id, 1);
}

#[test]
fn instantiate_rejects_excessive_fee() {
    let r = exec_agents::instantiate("creator".to_string(), "usdc".to_string(), 0, 10001);
    assert!(matches!(r, Err(ContractError::InvalidConfig { .. })));
}

#[test]
fn register_fund_withdraw_scenario() {
    // register with no initial funding: nothing available, nothing locked
    let mut state = setup();
    let x = register(&mut state, "alice");
    assert_eq!(balances(&state, &x), (0, 0));
    // fund with 500 of the settlement asset
    fund(&mut state, "alice", &x, 500);
    assert_eq!(balances(&state, &x), (500, 0));
    // withdrawing 600 fails naming the shortfall
    let r = exec_agents::withdraw_from_agent(
        &mut state,
        &"alice".to_string(),
        1000,
        x.clone(),
        usdc(600),
        "alice-wallet".to_string(),
    );
    match r {
        Err(ContractError::InsufficientBalance { required, available }) => {
            assert_eq!(required, 600);
            assert_eq!(available, 500);
        },
        _ => panic!("expected InsufficientBalance"),
    }
    assert_eq!(balances(&state, &x), (500, 0));
    // withdrawing 200 emits one transfer instruction
    let resp = exec_agents::withdraw_from_agent(
        &mut state,
        &"alice".to_string(),
        1000,
        x.clone(),
        usdc(200),
        "alice-wallet".to_string(),
    )
    .unwrap();
    assert_eq!(resp.transfers.len(), 1);
    assert_eq!(resp.transfers[0].to_address, "alice-wallet");
    assert_eq!(resp.transfers[0].amount.amount, 200);
    assert_eq!(balances(&state, &x), (300, 0));
}

#[test]
fn register_twice_rejected() {
    let mut state = setup();
    register(&mut state, "alice");
    let r = exec_agents::register_agent(
        &mut state,
        &"alice".to_string(),
        &vec![],
        1000,
        "again".to_string(),
        "d".to_string(),
        vec![],
        vec![],
        None,
    );
    assert!(matches!(r, Err(ContractError::AgentAlreadyExists { .. })));
}

#[test]
fn register_with_initial_funding() {
    let mut state = setup();
    let counter = state.config.next_agent_id;
    exec_agents::register_agent(
        &mut state,
        &"alice".to_string(),
        &vec![usdc(700)],
        1000,
        "alice-agent".to_string(),
        "d".to_string(),
        vec![],
        vec![],
        Some(usdc(700)),
    )
    .unwrap();
    let x = generate_agent_id(&"alice".to_string(), counter);
    assert_eq!(balances(&state, &x), (700, 0));
    // a deposit transaction was recorded
    assert_eq!(state.transactions.len(), 1);
    assert!(matches!(state.transactions[0].tx_type, TransactionType::Deposit));
    assert_eq!(state.transactions[0].amount.amount, 700);
}

#[test]
fn register_funding_requires_attached_coins() {
    let mut state = setup();
    let r = exec_agents::register_agent(
        &mut state,
        &"alice".to_string(),
        &vec![],
        1000,
        "alice-agent".to_string(),
        "d".to_string(),
        vec![],
        vec![],
        Some(usdc(700)),
    );
    assert!(matches!(r, Err(ContractError::NoFunds { .. })));
}

#[test]
fn service_completion_scenario() {
    // fee_bps = 250: completing a 1000 payment splits 975 / 25
    let mut state = setup();
    let x = register(&mut state, "alice");
    let y = register(&mut state, "bob");
    fund(&mut state, "alice", &x, 2000);
    let resp = exec_services::request_service(
        &mut state,
        &"alice".to_string(),
        1100,
        x.clone(),
        y.clone(),
        "analysis".to_string(),
        usdc(1000),
        "{}".to_string(),
    )
    .unwrap();
    let service_id = resp.attributes[1].value.clone();
    assert_eq!(balances(&state, &x), (2000, 1000));
    let tx_before = state.transactions.len();
    exec_services::complete_service(
        &mut state,
        &"bob".to_string(),
        1200,
        service_id.clone(),
        "done".to_string(),
    )
    .unwrap();
    assert_eq!(balances(&state, &x), (1000, 0));
    assert_eq!(balances(&state, &y), (975, 0));
    // one net payment and one fee record
    assert_eq!(state.transactions.len(), tx_before + 2);
    let pay = &state.transactions[tx_before];
    assert!(matches!(pay.tx_type, TransactionType::ServicePayment));
    assert_eq!(pay.amount.amount, 975);
    let fee = &state.transactions[tx_before + 1];
    assert!(matches!(fee.tx_type, TransactionType::Fee));
    assert_eq!(fee.amount.amount, 25);
    assert!(fee.to.is_none());
    // the provider's reputation and counters moved
    let yq = queries::agent(&state, y.clone()).unwrap();
    assert_eq!(yq.reputation_score, 105);
    assert_eq!(yq.total_services_provided, 1);
    // the service is now terminal
    let s = queries::service(&state, service_id.clone()).unwrap();
    assert!(matches!(s.status, ServiceStatus::Completed));
    // completing again fails
    let again = exec_services::complete_service(
        &mut state,
        &"bob".to_string(),
        1300,
        service_id.clone(),
        "again".to_string(),
    );
    assert!(matches!(again, Err(ContractError::InvalidServiceStatus { .. })));
    // refunding a completed service fails too
    let refund = exec_services::refund_service(
        &mut state,
        &"alice".to_string(),
        1300,
        service_id,
        "late".to_string(),
    );
    assert!(matches!(refund, Err(ContractError::InvalidServiceStatus { .. })));
}

#[test]
fn service_refund_scenario() {
    let mut state = setup();
    let x = register(&mut state, "alice");
    let y = register(&mut state, "bob");
    fund(&mut state, "alice", &x, 1500);
    let resp = exec_services::request_service(
        &mut state,
        &"alice".to_string(),
        1100,
        x.clone(),
        y.clone(),
        "analysis".to_string(),
        usdc(1000),
        "{}".to_string(),
    )
    .unwrap();
    let service_id = resp.attributes[1].value.clone();
    assert_eq!(balances(&state, &x), (1500, 1000));
    // the provider refunds: escrow released, reputation penalized
    exec_services::refund_service(
        &mut state,
        &"bob".to_string(),
        1200,
        service_id.clone(),
        "cannot deliver".to_string(),
    )
    .unwrap();
    assert_eq!(balances(&state, &x), (1500, 0));
    let yq = queries::agent(&state, y.clone()).unwrap();
    assert_eq!(yq.reputation_score, 98);
    let s = queries::service(&state, service_id).unwrap();
    assert!(matches!(s.status, ServiceStatus::Refunded));
}

#[test]
fn request_service_needs_headroom() {
    let mut state = setup();
    let x = register(&mut state, "alice");
    let y = register(&mut state, "bob");
    fund(&mut state, "alice", &x, 800);
    let r = exec_services::request_service(
        &mut state,
        &"alice".to_string(),
        1100,
        x.clone(),
        y.clone(),
        "analysis".to_string(),
        usdc(1000),
        "{}".to_string(),
    );
    assert!(matches!(r, Err(ContractError::InsufficientBalance { .. })));
}

#[test]
fn agent_transfer_moves_funds() {
    let mut state = setup();
    let x = register(&mut state, "alice");
    let y = register(&mut state, "bob");
    fund(&mut state, "alice", &x, 1000);
    exec_transfer::agent_transfer(
        &mut state,
        &"alice".to_string(),
        1100,
        x.clone(),
        y.clone(),
        usdc(400),
        Some("thanks".to_string()),
    )
    .unwrap();
    assert_eq!(balances(&state, &x), (600, 0));
    assert_eq!(balances(&state, &y), (400, 0));
    // self transfer is rejected
    let r = exec_transfer::agent_transfer(
        &mut state,
        &"alice".to_string(),
        1100,
        x.clone(),
        x.clone(),
        usdc(100),
        None,
    );
    assert!(matches!(r, Err(ContractError::CircularTransfer { .. })));
}

#[test]
fn batch_transfer_is_atomic() {
    let mut state = setup();
    let x = register(&mut state, "alice");
    let y = register(&mut state, "bob");
    let z = register(&mut state, "carol");
    fund(&mut state, "alice", &x, 1000);
    // one bad leg (unknown recipient) fails the whole batch
    let bad = exec_transfer::batch_agent_transfer(
        &mut state,
        &"alice".to_string(),
        1100,
        x.clone(),
        vec![
            agent_registry::types::Transfer {
                to_agent_id: y.clone(),
                amount: usdc(100),
                memo: None,
            },
            agent_registry::types::Transfer {
                to_agent_id: "agent_0_99".to_string(),
                amount: usdc(100),
                memo: None,
            },
        ],
    );
    assert!(matches!(bad, Err(ContractError::AgentNotFound { .. })));
    assert_eq!(balances(&state, &x), (1000, 0));
    assert_eq!(balances(&state, &y), (0, 0));
    // a good batch lands every leg and records one transaction each
    let tx_before = state.transactions.len();
    exec_transfer::batch_agent_transfer(
        &mut state,
        &"alice".to_string(),
        1100,
        x.clone(),
        vec![
            agent_registry::types::Transfer {
                to_agent_id: y.clone(),
                amount: usdc(100),
                memo: None,
            },
            agent_registry::types::Transfer {
                to_agent_id: z.clone(),
                amount: usdc(250),
                memo: Some("supplies".to_string()),
            },
        ],
    )
    .unwrap();
    assert_eq!(balances(&state, &x), (650, 0));
    assert_eq!(balances(&state, &y), (100, 0));
    assert_eq!(balances(&state, &z), (250, 0));
    assert_eq!(state.transactions.len(), tx_before + 2);
}

#[test]
fn procurement_scenario() {
    // PO of 300, accepted; invoice with tax 10% totals 330; payment
    // completes the order and moves the funds
    let mut state = setup();
    let b = register(&mut state, "buyer");
    let s = register(&mut state, "seller");
    fund(&mut state, "buyer", &b, 1000);
    let resp = exec_procurement::create_purchase_order(
        &mut state,
        &"buyer".to_string(),
        2000,
        b.clone(),
        s.clone(),
        vec![PurchaseOrderItem {
            item_id: "it-1".to_string(),
            description: "widgets".to_string(),
            quantity: 3,
            unit_price: 100,
            unit: "piece".to_string(),
        }],
        "by truck".to_string(),
        PaymentTerms { payment_type: PaymentType::Immediate, deposit_percentage: None, net_days: 30 },
        None,
    )
    .unwrap();
    let po_id = resp.attributes[1].value.clone();
    assert_eq!(po_id, "PO-1-2000");
    // buyer submits, seller accepts
    exec_procurement::update_purchase_order(
        &mut state,
        &"buyer".to_string(),
        2001,
        po_id.clone(),
        PurchaseOrderStatus::Submitted,
        b.clone(),
        None,
    )
    .unwrap();
    exec_procurement::update_purchase_order(
        &mut state,
        &"seller".to_string(),
        2002,
        po_id.clone(),
        PurchaseOrderStatus::Accepted,
        s.clone(),
        None,
    )
    .unwrap();
    let bf = queries::account_summary(&state, b.clone(), None, None).unwrap();
    assert_eq!(bf.outstanding_payables, 300);
    let sf = queries::account_summary(&state, s.clone(), None, None).unwrap();
    assert_eq!(sf.outstanding_receivables, 300);
    // the draft cannot jump straight to accepted
    let bad = exec_procurement::update_purchase_order(
        &mut state,
        &"seller".to_string(),
        2003,
        po_id.clone(),
        PurchaseOrderStatus::Delivered,
        s.clone(),
        None,
    );
    assert!(matches!(bad, Err(ContractError::InvalidOperation { .. })));
    // seller starts work, then invoices with 10% tax
    exec_procurement::update_purchase_order(
        &mut state,
        &"seller".to_string(),
        2004,
        po_id.clone(),
        PurchaseOrderStatus::InProgress,
        s.clone(),
        None,
    )
    .unwrap();
    let resp = exec_procurement::create_invoice(
        &mut state,
        &"seller".to_string(),
        2005,
        po_id.clone(),
        s.clone(),
        vec![InvoiceLineItem {
            description: "widgets".to_string(),
            quantity: 3,
            unit_price: 100,
            po_item_id: Some("it-1".to_string()),
        }],
        Some(1000),
        None,
        3000,
        None,
    )
    .unwrap();
    let invoice_id = resp.attributes[1].value.clone();
    assert_eq!(invoice_id, "INV-1-2005");
    let inv = queries::invoice(&state, invoice_id.clone()).unwrap().invoice;
    assert_eq!(inv.subtotal, 300);
    assert_eq!(inv.tax_amount, 30);
    assert_eq!(inv.total_amount, 330);
    assert!(!inv.paid);
    // the buyer pays
    exec_procurement::pay_invoice(
        &mut state,
        &"buyer".to_string(),
        2006,
        invoice_id.clone(),
        b.clone(),
        Some("wire-77".to_string()),
    )
    .unwrap();
    assert_eq!(balances(&state, &b), (670, 0));
    assert_eq!(balances(&state, &s), (330, 0));
    let inv = queries::invoice(&state, invoice_id.clone()).unwrap().invoice;
    assert!(inv.paid);
    assert_eq!(inv.paid_at, Some(2006));
    let po = queries::purchase_order(&state, po_id.clone()).unwrap().purchase_order;
    assert!(matches!(po.status, PurchaseOrderStatus::Completed));
    // paying twice fails
    let again = exec_procurement::pay_invoice(
        &mut state,
        &"buyer".to_string(),
        2007,
        invoice_id.clone(),
        b.clone(),
        None,
    );
    assert!(matches!(again, Err(ContractError::InvalidOperation { .. })));
    // a refund request only notifies the counterparty
    let (sb, ss) = (balances(&state, &b), balances(&state, &s));
    exec_procurement::initiate_refund(
        &mut state,
        &"buyer".to_string(),
        2008,
        invoice_id,
        b.clone(),
        usdc(330),
        "damaged".to_string(),
    )
    .unwrap();
    assert_eq!(balances(&state, &b), sb);
    assert_eq!(balances(&state, &s), ss);
}

#[test]
fn confirm_receipt_marks_delivered() {
    let mut state = setup();
    let b = register(&mut state, "buyer");
    let s = register(&mut state, "seller");
    let resp = exec_procurement::create_purchase_order(
        &mut state,
        &"buyer".to_string(),
        2000,
        b.clone(),
        s.clone(),
        vec![],
        "mail".to_string(),
        PaymentTerms { payment_type: PaymentType::Net, deposit_percentage: None, net_days: 30 },
        None,
    )
    .unwrap();
    let po_id = resp.attributes[1].value.clone();
    exec_procurement::confirm_receipt(
        &mut state,
        &"buyer".to_string(),
        2010,
        po_id.clone(),
        b.clone(),
        vec![],
        Some("all good".to_string()),
    )
    .unwrap();
    let po = queries::purchase_order(&state, po_id.clone()).unwrap().purchase_order;
    assert!(matches!(po.status, PurchaseOrderStatus::Delivered));
    // receipts accumulate
    exec_procurement::confirm_receipt(
        &mut state,
        &"buyer".to_string(),
        2011,
        po_id.clone(),
        b.clone(),
        vec![],
        None,
    )
    .unwrap();
    let list = state.receipts.get(&po_id).unwrap();
    assert_eq!(list.len(), 2);
}

#[test]
fn reconcile_is_idempotent() {
    let mut state = setup();
    let b = register(&mut state, "buyer");
    let s = register(&mut state, "seller");
    let resp = exec_procurement::create_purchase_order(
        &mut state,
        &"buyer".to_string(),
        2000,
        b.clone(),
        s.clone(),
        vec![PurchaseOrderItem {
            item_id: "it-1".to_string(),
            description: "w".to_string(),
            quantity: 2,
            unit_price: 50,
            unit: "piece".to_string(),
        }],
        "mail".to_string(),
        PaymentTerms { payment_type: PaymentType::Net, deposit_percentage: None, net_days: 30 },
        None,
    )
    .unwrap();
    let po_id = resp.attributes[1].value.clone();
    exec_procurement::update_purchase_order(
        &mut state,
        &"buyer".to_string(),
        2001,
        po_id.clone(),
        PurchaseOrderStatus::Submitted,
        b.clone(),
        None,
    )
    .unwrap();
    exec_procurement::update_purchase_order(
        &mut state,
        &"seller".to_string(),
        2002,
        po_id.clone(),
        PurchaseOrderStatus::InProgress,
        s.clone(),
        None,
    )
    .ok();
    exec_procurement::create_invoice(
        &mut state,
        &"seller".to_string(),
        2005,
        po_id.clone(),
        s.clone(),
        vec![InvoiceLineItem {
            description: "w".to_string(),
            quantity: 2,
            unit_price: 50,
            po_item_id: None,
        }],
        None,
        None,
        3000,
        None,
    )
    .ok();
    exec_procurement::reconcile_accounts(
        &mut state,
        &"seller".to_string(),
        2100,
        s.clone(),
        0,
        u64::MAX,
    )
    .unwrap();
    let first = queries::account_summary(&state, s.clone(), None, None).unwrap();
    exec_procurement::reconcile_accounts(
        &mut state,
        &"seller".to_string(),
        2100,
        s.clone(),
        0,
        u64::MAX,
    )
    .unwrap();
    let second = queries::account_summary(&state, s.clone(), None, None).unwrap();
    assert_eq!(first.outstanding_receivables, second.outstanding_receivables);
    assert_eq!(first.outstanding_payables, second.outstanding_payables);
    assert_eq!(first.completed_orders, second.completed_orders);
    assert_eq!(first.pending_orders, second.pending_orders);
    assert_eq!(first.total_sales, second.total_sales);
    assert_eq!(first.total_purchases, second.total_purchases);
}

#[test]
fn messaging_round_trip() {
    let mut state = setup();
    let x = register(&mut state, "alice");
    let y = register(&mut state, "bob");
    let resp = exec_messages::send_message(
        &mut state,
        &"alice".to_string(),
        1100,
        x.clone(),
        y.clone(),
        MessageType::Information,
        "hello".to_string(),
        true,
    )
    .unwrap();
    let message_id = resp.attributes[1].value.clone();
    assert_eq!(message_id, "msg_1");
    // only the recipient may respond
    let wrong = exec_messages::respond_to_message(
        &mut state,
        &"alice".to_string(),
        1101,
        message_id.clone(),
        x.clone(),
        "hi".to_string(),
    );
    assert!(matches!(wrong, Err(ContractError::Unauthorized { .. })));
    exec_messages::respond_to_message(
        &mut state,
        &"bob".to_string(),
        1102,
        message_id.clone(),
        y.clone(),
        "hi".to_string(),
    )
    .unwrap();
    // the response is settable at most once
    let twice = exec_messages::respond_to_message(
        &mut state,
        &"bob".to_string(),
        1103,
        message_id.clone(),
        y.clone(),
        "again".to_string(),
    );
    assert!(matches!(twice, Err(ContractError::InvalidOperation { .. })));
    let m = queries::message(&state, message_id).unwrap().message;
    let r = m.response.unwrap();
    assert_eq!(r.response_content, "hi");
    assert_eq!(r.responded_at, 1102);
}

#[test]
fn deactivation_blocks_and_unblocks() {
    let mut state = setup();
    let x = register(&mut state, "alice");
    let y = register(&mut state, "bob");
    fund(&mut state, "alice", &x, 1000);
    exec_services::request_service(
        &mut state,
        &"alice".to_string(),
        1100,
        x.clone(),
        y.clone(),
        "t".to_string(),
        usdc(500),
        "{}".to_string(),
    )
    .unwrap();
    // funds in escrow forbid deactivation
    let r = exec_agents::deactivate_agent(&mut state, &"alice".to_string(), 1200, x.clone());
    assert!(matches!(r, Err(ContractError::CustomError { .. })));
    // the provider can deactivate, and then cannot be funded
    exec_agents::deactivate_agent(&mut state, &"bob".to_string(), 1200, y.clone()).unwrap();
    let r = exec_agents::fund_agent(
        &mut state,
        &"carol".to_string(),
        &vec![usdc(10)],
        1300,
        y.clone(),
    );
    assert!(matches!(r, Err(ContractError::AgentNotActive { .. })));
}

#[test]
fn monotonic_ids_survive_failed_calls() {
    let mut state = setup();
    let b = register(&mut state, "buyer");
    let s = register(&mut state, "seller");
    let r1 = exec_procurement::create_purchase_order(
        &mut state,
        &"buyer".to_string(),
        2000,
        b.clone(),
        s.clone(),
        vec![],
        "d".to_string(),
        PaymentTerms { payment_type: PaymentType::Net, deposit_percentage: None, net_days: 10 },
        None,
    )
    .unwrap();
    assert_eq!(r1.attributes[1].value, "PO-1-2000");
    // a failed creation (unknown seller) bumps nothing
    let bad = exec_procurement::create_purchase_order(
        &mut state,
        &"buyer".to_string(),
        2001,
        b.clone(),
        "agent_0_42".to_string(),
        vec![],
        "d".to_string(),
        PaymentTerms { payment_type: PaymentType::Net, deposit_percentage: None, net_days: 10 },
        None,
    );
    assert!(bad.is_err());
    assert_eq!(state.po_counter, 1);
    let r2 = exec_procurement::create_purchase_order(
        &mut state,
        &"buyer".to_string(),
        2002,
        b.clone(),
        s.clone(),
        vec![],
        "d".to_string(),
        PaymentTerms { payment_type: PaymentType::Net, deposit_percentage: None, net_days: 10 },
        None,
    )
    .unwrap();
    assert_eq!(r2.attributes[1].value, "PO-2-2002");
}

#[test]
fn update_config_admin_only() {
    let mut state = setup();
    let r = exec_agents::update_config(
        &mut state,
        &"mallory".to_string(),
        None,
        None,
        Some(100),
    );
    assert!(matches!(r, Err(ContractError::Unauthorized { .. })));
    let r = exec_agents::update_config(
        &mut state,
        &"creator".to_string(),
        None,
        None,
        Some(10001),
    );
    assert!(matches!(r, Err(ContractError::InvalidConfig { .. })));
    exec_agents::update_config(&mut state, &"creator".to_string(), None, None, Some(100)).unwrap();
    assert_eq!(state.config.service_fee_percentage, 100);
}

#[test]
fn balance_conservation_across_calls() {
    let total = |state: &State, ids: &[&String]| -> u128 {
        ids.iter().map(|id| balances(state, id).0).sum()
    };
    let mut state = setup();
    let x = register(&mut state, "alice");
    let y = register(&mut state, "bob");
    fund(&mut state, "alice", &x, 5000);
    fund(&mut state, "bob", &y, 3000);
    assert_eq!(total(&state, &[&x, &y]), 8000);
    // a transfer conserves the total
    exec_transfer::agent_transfer(
        &mut state,
        &"alice".to_string(),
        1100,
        x.clone(),
        y.clone(),
        usdc(1200),
        None,
    )
    .unwrap();
    assert_eq!(total(&state, &[&x, &y]), 8000);
    // completing a service burns exactly the fee
    let resp = exec_services::request_service(
        &mut state,
        &"alice".to_string(),
        1100,
        x.clone(),
        y.clone(),
        "t".to_string(),
        usdc(1000),
        "{}".to_string(),
    )
    .unwrap();
    let sid = resp.attributes[1].value.clone();
    exec_services::complete_service(&mut state, &"bob".to_string(), 1200, sid, "ok".to_string())
        .unwrap();
    assert_eq!(total(&state, &[&x, &y]), 8000 - 25);
}

#[test]
fn missing_entities_are_reported() {
    let mut state = setup();
    let x = register(&mut state, "alice");
    assert!(matches!(
        exec_services::complete_service(
            &mut state,
            &"alice".to_string(),
            1000,
            "service_none".to_string(),
            "r".to_string()
        ),
        Err(ContractError::ServiceNotFound { .. })
    ));
    assert!(matches!(
        exec_messages::respond_to_message(
            &mut state,
            &"alice".to_string(),
            1000,
            "msg_9".to_string(),
            x.clone(),
            "r".to_string()
        ),
        Err(ContractError::MessageNotFound { .. })
    ));
    assert!(matches!(
        exec_procurement::update_purchase_order(
            &mut state,
            &"alice".to_string(),
            1000,
            "PO-9-9".to_string(),
            PurchaseOrderStatus::Submitted,
            x.clone(),
            None
        ),
        Err(ContractError::PurchaseOrderNotFound { .. })
    ));
    assert!(matches!(
        exec_procurement::pay_invoice(
            &mut state,
            &"alice".to_string(),
            1000,
            "INV-9-9".to_string(),
            x.clone(),
            None
        ),
        Err(ContractError::InvoiceNotFound { .. })
    ));
    assert!(matches!(
        exec_agents::fund_agent(
            &mut state,
            &"alice".to_string(),
            &vec![usdc(5)],
            1000,
            "agent_0_9".to_string()
        ),
        Err(ContractError::AgentNotFound { .. })
    ));
}

#[test]
fn wrong_denomination_is_rejected() {
    let mut state = setup();
    let x = register(&mut state, "alice");
    fund(&mut state, "alice", &x, 100);
    let r = exec_agents::withdraw_from_agent(
        &mut state,
        &"alice".to_string(),
        1000,
        x.clone(),
        Coin { denom: "atom".to_string(), amount: 10 },
        "somewhere".to_string(),
    );
    assert!(matches!(r, Err(ContractError::InvalidPayment { .. })));
}

#[test]
fn balance_overflow_is_an_error() {
    let mut state = setup();
    let x = register(&mut state, "alice");
    fund(&mut state, "alice", &x, u128::MAX);
    let r = exec_agents::fund_agent(&mut state, &"bob".to_string(), &vec![usdc(1)], 1000, x.clone());
    assert!(matches!(r, Err(ContractError::Overflow { .. })));
    // the failed call changed nothing
    assert_eq!(balances(&state, &x), (u128::MAX, 0));
}

#[test]
fn dispatch_round_trip() {
    let mut state = dispatch::instantiate(
        "creator".to_string(),
        dispatch::InstantiateMsg {
            stablecoin_denom: "usdc".to_string(),
            min_agent_balance: 0,
            service_fee_percentage: 250,
        },
    )
    .unwrap();
    dispatch::execute(
        &mut state,
        &"alice".to_string(),
        &vec![],
        1000,
        dispatch::ExecuteMsg::RegisterAgent {
            name: "alice-agent".to_string(),
            description: "d".to_string(),
            capabilities: vec![],
            service_endpoints: vec![],
            initial_balance: None,
        },
    )
    .unwrap();
    let answer = dispatch::query(&state, dispatch::QueryMsg::Config {}).unwrap();
    match answer {
        dispatch::QueryAnswer::Config(c) => {
            assert_eq!(c.total_agents, 1);
            assert_eq!(c.service_fee_percentage, 250);
        },
        _ => panic!("expected a config answer"),
    }
}
