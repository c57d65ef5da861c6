//! The procurement workflow: purchase order, invoice, payment, receipt,
//! and financial reconciliation.

use vstd::prelude::*;

use crate::errors::ContractError;
use crate::ids::{
    invoice_id_string, invoice_id_text, lemma_invoice_id_counter, lemma_po_id_counter,
    message_id_text, po_id_string, po_id_text,
};
use crate::exec_messages::{id_appended, notify, push_id_list, store_message};
use crate::ledger::record_transaction;
use crate::state::{
    same_directory, same_governance, same_ledger, same_messaging, same_services, same_wallets,
    AgentFinancials, AgentFinancialsV, AgentMessageV, AgentWallet, Invoice, InvoiceV,
    PurchaseOrder, PurchaseOrderV, Receipt, ReceiptV, State, TransactionRecordV, line_item_views,
    po_item_views, receipt_views,
};
use crate::notices::{
    invoice_notice, invoice_notice_string, payment_notice, payment_notice_string,
    po_created_notice, po_created_notice_string, po_status_notice, po_status_notice_string,
    receipt_notice, receipt_notice_string, refund_notice, refund_notice_string,
};
use crate::text::dec_of;
use crate::types::{
    attrs_of, clone_opt_string, opt_view, transfers_of, views_of, Coin, CoinV, InvoiceLineItem,
    InvoiceLineItemV, ItemReceipt, MessageType, MessageTypeV, PaymentTerms, PurchaseOrderItem,
    PurchaseOrderItemV, PurchaseOrderStatus, Response, TransactionType,
};
use crate::wallet::lemma_wallet_set_sum;

verus! {

/// The total of a purchase order: the sum over items of unit price times
/// quantity.
pub open spec fn po_items_total(items: Seq<PurchaseOrderItemV>) -> int
    decreases items.len(),
{
    if items.len() == 0 {
        0
    } else {
        po_items_total(items.drop_last()) + items.last().unit_price * items.last().quantity
    }
}

proof fn lemma_po_items_total_prefix(items: Seq<PurchaseOrderItemV>, j: int)
    requires
        0 <= j <= items.len(),
    ensures
        po_items_total(items.take(j)) <= po_items_total(items),
    decreases items.len() - j,
{
    if j == items.len() {
        assert(items.take(j) =~= items);
    } else {
        lemma_po_items_total_prefix(items, j + 1);
        assert(items.take(j + 1).drop_last() =~= items.take(j));
        assert(items.take(j + 1).last() == items[j]);
        assert(items[j].unit_price * items[j].quantity >= 0) by (nonlinear_arith);
    }
}

/// Sum the items of a purchase order with checked arithmetic.
fn sum_po_items(items: &Vec<PurchaseOrderItem>) -> (r: Result<u128, ContractError>)
    ensures
        r is Ok <==> po_items_total(po_item_views(items@)) <= u128::MAX,
        r matches Ok(t) ==> t == po_items_total(po_item_views(items@)),
        r is Err ==> r matches Err(ContractError::Overflow { .. }),
{
    let ghost iv = po_item_views(items@);
    let n = items.len();
    let mut acc: u128 = 0;
    let mut i: usize = 0;
    while i < n
        invariant
            i <= n,
            n == items@.len(),
            iv == po_item_views(items@),
            iv.len() == n,
            acc == po_items_total(iv.take(i as int)),
            forall|j: int| 0 <= j < n ==> #[trigger] iv[j] == items@[j]@,
        decreases n - i,
    {
        let it = &items[i];
        let q: u128 = it.quantity as u128;
        proof {
            assert(iv.take(i + 1).drop_last() =~= iv.take(i as int));
            assert(iv.take(i + 1).last() == iv[i as int]);
        }
        if q != 0 && it.unit_price > u128::MAX / q {
            proof {
                lemma_po_items_total_prefix(iv, i + 1);
                crate::arith::lemma_mul_exceeds(it.unit_price as int, q as int, u128::MAX as int);
                assert(po_items_total(iv.take(i as int)) >= 0) by {
                    lemma_po_items_total_nonneg(iv.take(i as int));
                }
            }
            return Err(ContractError::Overflow {});
        }
        let prod: u128 = if q == 0 {
            0
        } else {
            proof {
                crate::arith::lemma_mul_fits(it.unit_price as int, q as int, u128::MAX as int);
            }
            it.unit_price * q
        };
        if prod > u128::MAX - acc {
            proof {
                lemma_po_items_total_prefix(iv, i + 1);
            }
            return Err(ContractError::Overflow {});
        }
        acc = acc + prod;
        i = i + 1;
    }
    proof {
        assert(iv.take(n as int) =~= iv);
    }
    Ok(acc)
}

proof fn lemma_po_items_total_nonneg(items: Seq<PurchaseOrderItemV>)
    ensures
        po_items_total(items) >= 0,
    decreases items.len(),
{
    if items.len() > 0 {
        lemma_po_items_total_nonneg(items.drop_last());
        assert(items.last().unit_price * items.last().quantity >= 0) by (nonlinear_arith);
    }
}

/// The subtotal of an invoice: the sum over lines of unit price times
/// quantity.
pub open spec fn line_items_subtotal(items: Seq<InvoiceLineItemV>) -> int
    decreases items.len(),
{
    if items.len() == 0 {
        0
    } else {
        line_items_subtotal(items.drop_last()) + items.last().unit_price * items.last().quantity
    }
}

proof fn lemma_line_items_subtotal_prefix(items: Seq<InvoiceLineItemV>, j: int)
    requires
        0 <= j <= items.len(),
    ensures
        line_items_subtotal(items.take(j)) <= line_items_subtotal(items),
    decreases items.len() - j,
{
    if j == items.len() {
        assert(items.take(j) =~= items);
    } else {
        lemma_line_items_subtotal_prefix(items, j + 1);
        assert(items.take(j + 1).drop_last() =~= items.take(j));
        assert(items.take(j + 1).last() == items[j]);
        assert(items[j].unit_price * items[j].quantity >= 0) by (nonlinear_arith);
    }
}

/// Sum the lines of an invoice with checked arithmetic.
fn sum_line_items(items: &Vec<InvoiceLineItem>) -> (r: Result<u128, ContractError>)
    ensures
        r is Ok <==> line_items_subtotal(line_item_views(items@)) <= u128::MAX,
        r matches Ok(t) ==> t == line_items_subtotal(line_item_views(items@)),
        r is Err ==> r matches Err(ContractError::Overflow { .. }),
{
    let ghost iv = line_item_views(items@);
    let n = items.len();
    let mut acc: u128 = 0;
    let mut i: usize = 0;
    while i < n
        invariant
            i <= n,
            n == items@.len(),
            iv == line_item_views(items@),
            iv.len() == n,
            acc == line_items_subtotal(iv.take(i as int)),
            forall|j: int| 0 <= j < n ==> #[trigger] iv[j] == items@[j]@,
        decreases n - i,
    {
        let it = &items[i];
        let q: u128 = it.quantity as u128;
        proof {
            assert(iv.take(i + 1).drop_last() =~= iv.take(i as int));
            assert(iv.take(i + 1).last() == iv[i as int]);
        }
        if q != 0 && it.unit_price > u128::MAX / q {
            proof {
                lemma_line_items_subtotal_prefix(iv, i + 1);
                crate::arith::lemma_mul_exceeds(it.unit_price as int, q as int, u128::MAX as int);
                assert(line_items_subtotal(iv.take(i as int)) >= 0) by {
                    lemma_line_items_subtotal_nonneg(iv.take(i as int));
                }
            }
            return Err(ContractError::Overflow {});
        }
        let prod: u128 = if q == 0 {
            0
        } else {
            proof {
                crate::arith::lemma_mul_fits(it.unit_price as int, q as int, u128::MAX as int);
            }
            it.unit_price * q
        };
        if prod > u128::MAX - acc {
            proof {
                lemma_line_items_subtotal_prefix(iv, i + 1);
            }
            return Err(ContractError::Overflow {});
        }
        acc = acc + prod;
        i = i + 1;
    }
    proof {
        assert(iv.take(n as int) =~= iv);
    }
    Ok(acc)
}

proof fn lemma_line_items_subtotal_nonneg(items: Seq<InvoiceLineItemV>)
    ensures
        line_items_subtotal(items) >= 0,
    decreases items.len(),
{
    if items.len() > 0 {
        lemma_line_items_subtotal_nonneg(items.drop_last());
        assert(items.last().unit_price * items.last().quantity >= 0) by (nonlinear_arith);
    }
}

/// A basis-point charge on an amount, rounded down.
pub open spec fn bps_of(amount: u128, rate: u64) -> int {
    (amount * rate) / 10000
}

/// Compute a basis-point charge; the intermediate product must fit.
fn mul_bps(amount: u128, rate: u64) -> (r: Result<u128, ContractError>)
    ensures
        r is Ok <==> amount * rate <= u128::MAX,
        r matches Ok(v) ==> v == bps_of(amount, rate),
        r is Err ==> r matches Err(ContractError::Overflow { .. }),
{
    let rr: u128 = rate as u128;
    if amount != 0 && rr > u128::MAX / amount {
        proof {
            crate::arith::lemma_mul_exceeds(rr as int, amount as int, u128::MAX as int);
            assert(amount * rate == rr * amount) by (nonlinear_arith)
                requires
                    rr == rate,
            ;
        }
        return Err(ContractError::Overflow {});
    }
    if amount == 0 {
        return Ok(0);
    }
    proof {
        crate::arith::lemma_mul_fits(rr as int, amount as int, u128::MAX as int);
        assert(amount * rr == rr * amount) by (nonlinear_arith);
    }
    let prod = amount * rr;
    Ok(prod / 10000)
}

/// A default (zeroed) financial record for an agent.
pub open spec fn fin_default(k: Seq<char>, t: u64) -> AgentFinancialsV {
    AgentFinancialsV {
        agent_id: k,
        total_sales: 0,
        total_purchases: 0,
        outstanding_receivables: 0,
        outstanding_payables: 0,
        completed_orders: 0,
        pending_orders: 0,
        last_updated: t,
    }
}

/// The current financial record of an agent, or the default when none is
/// stored yet.
pub open spec fn fin_cur(m: crate::store::StrMap<AgentFinancials>, k: Seq<char>, t: u64) -> AgentFinancialsV {
    if m@.contains_key(k) {
        m@[k]@
    } else {
        fin_default(k, t)
    }
}

/// A financial record after incremental sales or purchase additions.
pub open spec fn fin_bump(
    f: AgentFinancialsV,
    add_sales: Option<u128>,
    add_purchases: Option<u128>,
    t: u64,
) -> AgentFinancialsV {
    let pend: int = f.pending_orders + (if add_sales is Some {
        1int
    } else {
        0
    }) + (if add_purchases is Some {
        1int
    } else {
        0
    });
    AgentFinancialsV {
        total_sales: (f.total_sales + (match add_sales {
            Some(s) => s as int,
            None => 0,
        })) as u128,
        outstanding_receivables: (f.outstanding_receivables + (match add_sales {
            Some(s) => s as int,
            None => 0,
        })) as u128,
        total_purchases: (f.total_purchases + (match add_purchases {
            Some(p) => p as int,
            None => 0,
        })) as u128,
        outstanding_payables: (f.outstanding_payables + (match add_purchases {
            Some(p) => p as int,
            None => 0,
        })) as u128,
        pending_orders: pend as u64,
        last_updated: t,
        ..f
    }
}

/// The additions fit without overflow.
pub open spec fn fin_bump_fits(
    f: AgentFinancialsV,
    add_sales: Option<u128>,
    add_purchases: Option<u128>,
) -> bool {
    &&& (add_sales matches Some(s) ==> f.total_sales + s <= u128::MAX
        && f.outstanding_receivables + s <= u128::MAX)
    &&& (add_purchases matches Some(p) ==> f.total_purchases + p <= u128::MAX
        && f.outstanding_payables + p <= u128::MAX)
    &&& f.pending_orders + (if add_sales is Some {
        1int
    } else {
        0
    }) + (if add_purchases is Some {
        1int
    } else {
        0
    }) <= u64::MAX
}

/// Incrementally update an agent's financials, creating the record on
/// first use.
fn update_agent_financials(
    financials: &mut crate::store::StrMap<AgentFinancials>,
    agent_id: &String,
    add_sales: Option<u128>,
    add_purchases: Option<u128>,
    timestamp: u64,
)
    requires
        old(financials).wf(),
        fin_bump_fits(fin_cur(*old(financials), agent_id@, timestamp), add_sales, add_purchases),
    ensures
        final(financials).wf(),
        final(financials)@.dom() == old(financials)@.dom().insert(agent_id@),
        forall|x: Seq<char>|
            x != agent_id@ && old(financials)@.contains_key(x) ==> final(financials)@[x] == old(
                financials,
            )@[x],
        final(financials)@[agent_id@]@ == fin_bump(
            fin_cur(*old(financials), agent_id@, timestamp),
            add_sales,
            add_purchases,
            timestamp,
        ),
{
    let mut f: AgentFinancials = match financials.get(agent_id) {
        Some(f) => AgentFinancials {
            agent_id: f.agent_id.clone(),
            total_sales: f.total_sales,
            total_purchases: f.total_purchases,
            outstanding_receivables: f.outstanding_receivables,
            outstanding_payables: f.outstanding_payables,
            completed_orders: f.completed_orders,
            pending_orders: f.pending_orders,
            last_updated: f.last_updated,
        },
        None => AgentFinancials {
            agent_id: agent_id.clone(),
            total_sales: 0,
            total_purchases: 0,
            outstanding_receivables: 0,
            outstanding_payables: 0,
            completed_orders: 0,
            pending_orders: 0,
            last_updated: timestamp,
        },
    };
    if let Some(s) = add_sales {
        f.total_sales = f.total_sales + s;
        f.outstanding_receivables = f.outstanding_receivables + s;
        f.pending_orders = f.pending_orders + 1;
    }
    if let Some(p) = add_purchases {
        f.total_purchases = f.total_purchases + p;
        f.outstanding_payables = f.outstanding_payables + p;
        f.pending_orders = f.pending_orders + 1;
    }
    f.last_updated = timestamp;
    financials.insert(agent_id.clone(), f);
}

/// When `create_purchase_order` accepts.
pub open spec fn create_purchase_order_allowed(pre: State, sender: String, time: u64, buyer_agent_id: String, seller_agent_id: String, items: Vec<PurchaseOrderItem>, delivery_terms: String, payment_terms: PaymentTerms, metadata: Option<String>) -> bool {
    ({
            &&& pre.agents@.contains_key(buyer_agent_id@)
            &&& pre.agents@[buyer_agent_id@].owner@ == sender@
            &&& pre.agents@[buyer_agent_id@].is_active
            &&& pre.agents@.contains_key(seller_agent_id@)
            &&& pre.agents@[seller_agent_id@].is_active
            &&& po_items_total(po_item_views(items@)) <= u128::MAX
            &&& pre.po_counter < u64::MAX
            &&& pre.message_counter < u64::MAX
        })
}

/// The full effect of a successful `create_purchase_order`.
pub open spec fn create_purchase_order_effect(pre: State, post: State, sender: String, time: u64, buyer_agent_id: String, seller_agent_id: String, items: Vec<PurchaseOrderItem>, delivery_terms: String, payment_terms: PaymentTerms, metadata: Option<String>, resp: Response) -> bool {
    ({
            let pid = po_id_text((pre.po_counter + 1) as nat, time as nat);
            let mid = message_id_text((pre.message_counter + 1) as nat);
            let total = po_items_total(po_item_views(items@));
            &&& !pre.purchase_orders@.contains_key(pid)
            &&& post.purchase_orders@.dom() == pre.purchase_orders@.dom().insert(
                pid,
            )
            &&& forall|k: Seq<char>|
                k != pid && pre.purchase_orders@.contains_key(k) ==> post.purchase_orders@[k] == pre.purchase_orders@[k]
            &&& post.purchase_orders@[pid]@ == (PurchaseOrderV {
                po_id: pid,
                buyer_agent_id: buyer_agent_id@,
                seller_agent_id: seller_agent_id@,
                items: po_item_views(items@),
                total_amount: total as u128,
                status: PurchaseOrderStatus::Draft,
                created_at: time,
                updated_at: time,
                delivery_terms: delivery_terms@,
                payment_terms,
                invoice_id: None,
                metadata: opt_view(metadata),
            })
            &&& post.po_counter == pre.po_counter + 1
            &&& id_appended(pre.buyer_pos, post.buyer_pos, buyer_agent_id@, pid)
            &&& id_appended(pre.seller_pos, post.seller_pos, seller_agent_id@, pid)
            &&& post.message_counter == pre.message_counter + 1
            &&& post.messages@.dom() == pre.messages@.dom().insert(mid)
            &&& forall|k: Seq<char>|
                k != mid && pre.messages@.contains_key(k) ==> post.messages@[k]
                    == pre.messages@[k]
            &&& post.messages@[mid]@ == (AgentMessageV {
                message_id: mid,
                from_agent_id: buyer_agent_id@,
                to_agent_id: seller_agent_id@,
                message_type: MessageTypeV::PurchaseOrder,
                content: po_created_notice(
                    pid,
                    buyer_agent_id@,
                    total as nat,
                    items@.len() as nat,
                    delivery_terms@,
                ),
                requires_response: true,
                timestamp: time,
                response: None,
            })
            &&& id_appended(pre.inboxes, post.inboxes, seller_agent_id@, mid)
            &&& post.outboxes == pre.outboxes
            &&& post.agents == pre.agents
            &&& same_directory(pre, post)
            &&& same_wallets(pre, post)
            &&& same_services(pre, post)
            &&& same_ledger(pre, post)
            &&& same_governance(pre, post)
            &&& post.invoices == pre.invoices
            &&& post.invoice_counter == pre.invoice_counter
            &&& post.buyer_invoices == pre.buyer_invoices
            &&& post.seller_invoices == pre.seller_invoices
            &&& post.receipts == pre.receipts
            &&& post.financials == pre.financials
            &&& attrs_of(resp) == seq![
                ("method"@, "create_purchase_order"@),
                ("po_id"@, pid),
                ("buyer"@, buyer_agent_id@),
                ("seller"@, seller_agent_id@),
                ("total_amount"@, dec_of(total as nat)),
            ]
            &&& transfers_of(resp) == Seq::<crate::types::BankTransferV>::empty()
        })
}

/// Create a purchase order in draft status and notify the seller.
pub fn create_purchase_order(
    state: &mut State,
    sender: &String,
    time: u64,
    buyer_agent_id: String,
    seller_agent_id: String,
    items: Vec<PurchaseOrderItem>,
    delivery_terms: String,
    payment_terms: PaymentTerms,
    metadata: Option<String>,
) -> (r: Result<Response, ContractError>)
    requires
        old(state).wf(),
    ensures
        final(state).wf(),
        r is Err ==> *final(state) == *old(state),
        !old(state).agents@.contains_key(buyer_agent_id@) <==> (r matches Err(
            ContractError::AgentNotFound { agent_id },
        ) && agent_id@ == buyer_agent_id@),
        old(state).agents@.contains_key(buyer_agent_id@) && old(
            state,
        ).agents@[buyer_agent_id@].owner@ != sender@ <==> (r matches Err(
            ContractError::Unauthorized { .. },
        )),
        r is Ok <==> create_purchase_order_allowed(*old(state), *sender, time, buyer_agent_id, seller_agent_id, items, delivery_terms, payment_terms, metadata),
        r matches Ok(resp) ==> create_purchase_order_effect(*old(state), *final(state), *sender, time, buyer_agent_id, seller_agent_id, items, delivery_terms, payment_terms, metadata, resp),
{
    let ghost pre = *old(state);
    match state.agents.get(&buyer_agent_id) {
        Some(a) => {
            if !crate::order::str_eq(&a.owner, sender) {
                return Err(ContractError::Unauthorized {
                    reason: String::from_str("Only agent owner can create purchase orders"),
                });
            }
            if !a.is_active {
                return Err(ContractError::AgentNotActive { agent_id: buyer_agent_id });
            }
        },
        None => {
            return Err(ContractError::AgentNotFound { agent_id: buyer_agent_id });
        },
    }
    match state.agents.get(&seller_agent_id) {
        Some(a) => {
            if !a.is_active {
                return Err(ContractError::AgentNotActive { agent_id: seller_agent_id });
            }
        },
        None => {
            return Err(ContractError::AgentNotFound { agent_id: seller_agent_id });
        },
    }
    let total = match sum_po_items(&items) {
        Ok(t) => t,
        Err(e) => {
            return Err(e);
        },
    };
    if state.po_counter == u64::MAX {
        return Err(ContractError::Overflow {});
    }
    if state.message_counter == u64::MAX {
        return Err(ContractError::Overflow {});
    }
    let counter = state.po_counter + 1;
    state.po_counter = counter;
    let po_id = po_id_string(counter, time);
    let ghost pid = po_id@;
    proof {
        if pre.purchase_orders@.contains_key(pid) {
            let (n, t) = choose|n: nat, t: nat|
                1 <= n <= pre.po_counter && pid == po_id_text(n, t);
            lemma_po_id_counter(n, t, counter as nat, time as nat);
        }
    }
    let items_count = items.len();
    let purchase_order = PurchaseOrder {
        po_id: po_id.clone(),
        buyer_agent_id: buyer_agent_id.clone(),
        seller_agent_id: seller_agent_id.clone(),
        items,
        total_amount: total,
        status: PurchaseOrderStatus::Draft,
        created_at: time,
        updated_at: time,
        delivery_terms: delivery_terms.clone(),
        payment_terms,
        invoice_id: None,
        metadata,
    };
    state.purchase_orders.insert(po_id.clone(), purchase_order);
    push_id_list(&mut state.buyer_pos, &buyer_agent_id, &po_id);
    push_id_list(&mut state.seller_pos, &seller_agent_id, &po_id);
    let content = po_created_notice_string(
        &po_id,
        &buyer_agent_id,
        total,
        items_count as u64,
        &delivery_terms,
    );
    let message_id = store_message(
        &mut state.messages,
        &mut state.message_counter,
        &buyer_agent_id,
        &seller_agent_id,
        MessageType::PurchaseOrder,
        content,
        true,
        time,
    );
    push_id_list(&mut state.inboxes, &seller_agent_id, &message_id);
    proof {
        assert(state.purchase_orders@.dom() =~= pre.purchase_orders@.dom().insert(pid));
        assert forall|k: Seq<char>| #[trigger] state.purchase_orders@.contains_key(k) implies
            exists|n: nat, t: nat| 1 <= n <= state.po_counter && k == po_id_text(n, t) by {
            if k == pid {
                assert(1 <= counter as nat <= state.po_counter && k == po_id_text(
                    counter as nat,
                    time as nat,
                ));
            } else {
                assert(pre.purchase_orders@.contains_key(k));
                let (n, t) = choose|n: nat, t: nat|
                    1 <= n <= pre.po_counter && k == po_id_text(n, t);
                assert(1 <= n <= state.po_counter && k == po_id_text(n, t));
            }
        }
    }
    let mut resp = Response::new();
    resp.push_attr("method", String::from_str("create_purchase_order"));
    resp.push_attr("po_id", po_id);
    resp.push_attr("buyer", buyer_agent_id);
    resp.push_attr("seller", seller_agent_id);
    resp.push_attr("total_amount", crate::text::dec_u128(total));
    proof {
        assert(attrs_of(resp) =~= seq![
            ("method"@, "create_purchase_order"@),
            ("po_id"@, pid),
            ("buyer"@, buyer_agent_id@),
            ("seller"@, seller_agent_id@),
            ("total_amount"@, dec_of(total as nat)),
        ]);
    }
    Ok(resp)
}

/// Whether the transition between two purchase-order statuses is listed in
/// the workflow table.
pub open spec fn po_transition_allowed(from: PurchaseOrderStatus, to: PurchaseOrderStatus) -> bool {
    ||| (from == PurchaseOrderStatus::Draft && to == PurchaseOrderStatus::Submitted)
    ||| (from == PurchaseOrderStatus::Submitted && (to == PurchaseOrderStatus::Accepted || to
        == PurchaseOrderStatus::Rejected))
    ||| (from == PurchaseOrderStatus::Accepted && to == PurchaseOrderStatus::InProgress)
}

/// Which party may drive a listed transition: the buyer submits a draft,
/// the seller accepts, rejects, or starts work.
pub open spec fn po_transition_actor_ok(
    from: PurchaseOrderStatus,
    is_buyer: bool,
    is_seller: bool,
) -> bool {
    if from == PurchaseOrderStatus::Draft {
        is_buyer
    } else {
        is_seller
    }
}

/// When `update_purchase_order` accepts.
pub open spec fn update_purchase_order_allowed(pre: State, sender: String, time: u64, po_id: String, status: PurchaseOrderStatus, updater_agent_id: String, notes: Option<String>) -> bool {
    ({
            let po = pre.purchase_orders@[po_id@];
            let is_buyer = updater_agent_id@ == po.buyer_agent_id@;
            let is_seller = updater_agent_id@ == po.seller_agent_id@;
            &&& pre.purchase_orders@.contains_key(po_id@)
            &&& pre.agents@.contains_key(updater_agent_id@)
            &&& pre.agents@[updater_agent_id@].owner@ == sender@
            &&& (is_buyer || is_seller)
            &&& po_transition_allowed(po.status, status)
            &&& po_transition_actor_ok(po.status, is_buyer, is_seller)
            &&& pre.message_counter < u64::MAX
            &&& (status == PurchaseOrderStatus::Accepted ==> accept_fits(
                pre,
                po.buyer_agent_id@,
                po.seller_agent_id@,
                po.total_amount,
                time,
            ))
        })
}

/// The full effect of a successful `update_purchase_order`.
pub open spec fn update_purchase_order_effect(pre: State, post: State, sender: String, time: u64, po_id: String, status: PurchaseOrderStatus, updater_agent_id: String, notes: Option<String>, resp: Response) -> bool {
    ({
            let po = pre.purchase_orders@[po_id@];
            let mid = message_id_text((pre.message_counter + 1) as nat);
            let recipient = if updater_agent_id@ == po.buyer_agent_id@ {
                po.seller_agent_id@
            } else {
                po.buyer_agent_id@
            };
            &&& post.purchase_orders@.dom() == pre.purchase_orders@.dom()
            &&& forall|k: Seq<char>|
                k != po_id@ && pre.purchase_orders@.contains_key(k) ==> post.purchase_orders@[k] == pre.purchase_orders@[k]
            &&& post.purchase_orders@[po_id@]@ == (PurchaseOrderV {
                status,
                updated_at: time,
                ..po@
            })
            &&& post.message_counter == pre.message_counter + 1
            &&& post.messages@.dom() == pre.messages@.dom().insert(mid)
            &&& post.messages@[mid]@ == (AgentMessageV {
                message_id: mid,
                from_agent_id: updater_agent_id@,
                to_agent_id: recipient,
                message_type: MessageTypeV::PurchaseOrder,
                content: po_status_notice(po_id@, status, updater_agent_id@, opt_view(notes)),
                requires_response: false,
                timestamp: time,
                response: None,
            })
            &&& forall|k: Seq<char>|
                k != mid && pre.messages@.contains_key(k) ==> post.messages@[k]
                    == pre.messages@[k]
            &&& post.inboxes == pre.inboxes
            &&& post.outboxes == pre.outboxes
            &&& (status != PurchaseOrderStatus::Accepted ==> post.financials == pre.financials)
            &&& (status == PurchaseOrderStatus::Accepted ==> accepted_financials(
                pre,
                post,
                po.buyer_agent_id@,
                po.seller_agent_id@,
                po.total_amount,
                time,
            ))
            &&& post.agents == pre.agents
            &&& same_directory(pre, post)
            &&& same_wallets(pre, post)
            &&& same_services(pre, post)
            &&& same_ledger(pre, post)
            &&& same_governance(pre, post)
            &&& post.po_counter == pre.po_counter
            &&& post.buyer_pos == pre.buyer_pos
            &&& post.seller_pos == pre.seller_pos
            &&& post.invoices == pre.invoices
            &&& post.invoice_counter == pre.invoice_counter
            &&& post.buyer_invoices == pre.buyer_invoices
            &&& post.seller_invoices == pre.seller_invoices
            &&& post.receipts == pre.receipts
            &&& attrs_of(resp) == seq![
                ("method"@, "update_purchase_order"@),
                ("po_id"@, po_id@),
                ("new_status"@, crate::notices::status_label(status)),
                ("updated_by"@, updater_agent_id@),
            ]
            &&& transfers_of(resp) == Seq::<crate::types::BankTransferV>::empty()
        })
}

/// Drive a purchase order along the workflow table and notify the
/// counterparty; acceptance books both parties' financials.
pub fn update_purchase_order(
    state: &mut State,
    sender: &String,
    time: u64,
    po_id: String,
    status: PurchaseOrderStatus,
    updater_agent_id: String,
    notes: Option<String>,
) -> (r: Result<Response, ContractError>)
    requires
        old(state).wf(),
    ensures
        final(state).wf(),
        r is Err ==> *final(state) == *old(state),
        !old(state).purchase_orders@.contains_key(po_id@) <==> (r matches Err(
            ContractError::PurchaseOrderNotFound { .. },
        )),
        ({
            let po = old(state).purchase_orders@[po_id@];
            let is_buyer = updater_agent_id@ == po.buyer_agent_id@;
            let is_seller = updater_agent_id@ == po.seller_agent_id@;
            old(state).purchase_orders@.contains_key(po_id@) && old(state).agents@.contains_key(
                updater_agent_id@,
            ) && old(state).agents@[updater_agent_id@].owner@ == sender@ && (is_buyer || is_seller)
                && !po_transition_allowed(po.status, status)
        }) <==> (r matches Err(ContractError::InvalidOperation { operation })
            && operation@ == "Invalid status transition from "@ + crate::notices::status_label(
            old(state).purchase_orders@[po_id@].status,
        ) + " to "@ + crate::notices::status_label(status)),
        r is Ok <==> update_purchase_order_allowed(*old(state), *sender, time, po_id, status, updater_agent_id, notes),
        r matches Ok(resp) ==> update_purchase_order_effect(*old(state), *final(state), *sender, time, po_id, status, updater_agent_id, notes, resp),
{
    let ghost pre = *old(state);
    let po = match state.purchase_orders.get(&po_id) {
        Some(p) => p.dup(),
        None => {
            return Err(ContractError::PurchaseOrderNotFound { po_id });
        },
    };
    match state.agents.get(&updater_agent_id) {
        Some(a) => {
            if !crate::order::str_eq(&a.owner, sender) {
                return Err(ContractError::Unauthorized {
                    reason: String::from_str("Only agent owner can update purchase orders"),
                });
            }
        },
        None => {
            return Err(ContractError::AgentNotFound { agent_id: updater_agent_id });
        },
    }
    let is_buyer = crate::order::str_eq(&updater_agent_id, &po.buyer_agent_id);
    let is_seller = crate::order::str_eq(&updater_agent_id, &po.seller_agent_id);
    if !is_buyer && !is_seller {
        return Err(ContractError::Unauthorized {
            reason: String::from_str("Only buyer or seller can update this PO"),
        });
    }
    let allowed = match (&po.status, &status) {
        (PurchaseOrderStatus::Draft, PurchaseOrderStatus::Submitted) => true,
        (PurchaseOrderStatus::Submitted, PurchaseOrderStatus::Accepted) => true,
        (PurchaseOrderStatus::Submitted, PurchaseOrderStatus::Rejected) => true,
        (PurchaseOrderStatus::Accepted, PurchaseOrderStatus::InProgress) => true,
        _ => false,
    };
    if !allowed {
        let mut operation = String::from_str("Invalid status transition from ");
        operation.append(crate::notices::status_label_str(po.status));
        operation.append(" to ");
        operation.append(crate::notices::status_label_str(status));
        return Err(ContractError::InvalidOperation { operation });
    }
    let actor_ok = match po.status {
        PurchaseOrderStatus::Draft => is_buyer,
        _ => is_seller,
    };
    if !actor_ok {
        return Err(ContractError::Unauthorized {
            reason: String::from_str("The transition is not permitted for this party"),
        });
    }
    if state.message_counter == u64::MAX {
        return Err(ContractError::Overflow {});
    }
    let accepted = matches!(status, PurchaseOrderStatus::Accepted);
    if accepted {
        // both parties' financial additions must fit
        let cur_b = peek_fin(&state.financials, &po.buyer_agent_id, time);
        if po.total_amount > u128::MAX - cur_b.total_purchases || po.total_amount > u128::MAX
            - cur_b.outstanding_payables || cur_b.pending_orders == u64::MAX {
            return Err(ContractError::Overflow {});
        }
        let cur_s = peek_fin(&state.financials, &po.seller_agent_id, time);
        let same = crate::order::str_eq(&po.buyer_agent_id, &po.seller_agent_id);
        if !same {
            if po.total_amount > u128::MAX - cur_s.total_sales || po.total_amount > u128::MAX
                - cur_s.outstanding_receivables || cur_s.pending_orders == u64::MAX {
                return Err(ContractError::Overflow {});
            }
        } else {
            if po.total_amount > u128::MAX - cur_s.total_sales || po.total_amount > u128::MAX
                - cur_s.outstanding_receivables || cur_s.pending_orders >= u64::MAX - 1 {
                return Err(ContractError::Overflow {});
            }
        }
    }
    // all checks passed: apply the transition
    let mut upd = po.dup();
    upd.status = status;
    upd.updated_at = time;
    state.purchase_orders.insert(po_id.clone(), upd);
    proof {
        assert(state.purchase_orders@.dom() =~= pre.purchase_orders@.dom());
    }
    let recipient = if is_buyer {
        po.seller_agent_id.clone()
    } else {
        po.buyer_agent_id.clone()
    };
    let content = po_status_notice_string(&po_id, status, &updater_agent_id, &notes);
    let _mid = store_message(
        &mut state.messages,
        &mut state.message_counter,
        &updater_agent_id,
        &recipient,
        MessageType::PurchaseOrder,
        content,
        false,
        time,
    );
    if accepted {
        update_agent_financials(
            &mut state.financials,
            &po.buyer_agent_id,
            None,
            Some(po.total_amount),
            time,
        );
        update_agent_financials(
            &mut state.financials,
            &po.seller_agent_id,
            Some(po.total_amount),
            None,
            time,
        );
    }
    let mut resp = Response::new();
    resp.push_attr("method", String::from_str("update_purchase_order"));
    resp.push_attr("po_id", po_id);
    resp.push_attr("new_status", String::from_str(crate::notices::status_label_str(status)));
    resp.push_attr("updated_by", updater_agent_id);
    proof {
        assert(attrs_of(resp) =~= seq![
            ("method"@, "update_purchase_order"@),
            ("po_id"@, po_id@),
            ("new_status"@, crate::notices::status_label(status)),
            ("updated_by"@, updater_agent_id@),
        ]);
    }
    Ok(resp)
}

/// Read an agent's current financial record, or the default.
fn peek_fin(
    financials: &crate::store::StrMap<AgentFinancials>,
    agent_id: &String,
    time: u64,
) -> (r: FinancialTotals)
    requires
        financials.wf(),
    ensures
        r.total_sales == fin_cur(*financials, agent_id@, time).total_sales,
        r.total_purchases == fin_cur(*financials, agent_id@, time).total_purchases,
        r.outstanding_receivables == fin_cur(*financials, agent_id@, time).outstanding_receivables,
        r.outstanding_payables == fin_cur(*financials, agent_id@, time).outstanding_payables,
        r.pending_orders == fin_cur(*financials, agent_id@, time).pending_orders,
{
    match financials.get(agent_id) {
        Some(f) => FinancialTotals {
            total_sales: f.total_sales,
            total_purchases: f.total_purchases,
            outstanding_receivables: f.outstanding_receivables,
            outstanding_payables: f.outstanding_payables,
            pending_orders: f.pending_orders,
        },
        None => FinancialTotals {
            total_sales: 0,
            total_purchases: 0,
            outstanding_receivables: 0,
            outstanding_payables: 0,
            pending_orders: 0,
        },
    }
}

/// The numeric part of a financial record, for overflow prechecks.
pub struct FinancialTotals {
    pub total_sales: u128,
    pub total_purchases: u128,
    pub outstanding_receivables: u128,
    pub outstanding_payables: u128,
    pub pending_orders: u64,
}

/// Acceptance additions fit for both parties, in the order they are
/// booked: the buyer's payables first, then the seller's receivables.
pub open spec fn accept_fits(
    s: State,
    buyer: Seq<char>,
    seller: Seq<char>,
    total: u128,
    t: u64,
) -> bool {
    let cur_b = fin_cur(s.financials, buyer, t);
    &&& fin_bump_fits(cur_b, None, Some(total))
    &&& (buyer != seller ==> fin_bump_fits(fin_cur(s.financials, seller, t), Some(total), None))
    &&& (buyer == seller ==> fin_bump_fits(
        fin_bump(cur_b, None, Some(total), t),
        Some(total),
        None,
    ))
}

/// The financial effect of accepting a purchase order.
pub open spec fn accepted_financials(
    pre: State,
    post: State,
    buyer: Seq<char>,
    seller: Seq<char>,
    total: u128,
    t: u64,
) -> bool {
    &&& post.financials@.dom() == pre.financials@.dom().insert(buyer).insert(seller)
    &&& forall|x: Seq<char>|
        x != buyer && x != seller && pre.financials@.contains_key(x) ==> post.financials@[x]
            == pre.financials@[x]
    &&& (buyer != seller ==> post.financials@[buyer]@ == fin_bump(
        fin_cur(pre.financials, buyer, t),
        None,
        Some(total),
        t,
    ) && post.financials@[seller]@ == fin_bump(
        fin_cur(pre.financials, seller, t),
        Some(total),
        None,
        t,
    ))
    &&& (buyer == seller ==> post.financials@[buyer]@ == fin_bump(
        fin_bump(fin_cur(pre.financials, buyer, t), None, Some(total), t),
        Some(total),
        None,
        t,
    ))
}

/// When `create_invoice` accepts.
pub open spec fn create_invoice_allowed(pre: State, sender: String, time: u64, po_id: String, seller_agent_id: String, line_items: Vec<InvoiceLineItem>, tax_rate: Option<u64>, discount_rate: Option<u64>, due_date: u64, metadata: Option<String>) -> bool {
    ({
            let po = pre.purchase_orders@[po_id@];
            let subtotal = line_items_subtotal(line_item_views(line_items@));
            &&& pre.purchase_orders@.contains_key(po_id@)
            &&& pre.agents@.contains_key(seller_agent_id@)
            &&& pre.agents@[seller_agent_id@].owner@ == sender@
            &&& seller_agent_id@ == po.seller_agent_id@
            &&& (po.status == PurchaseOrderStatus::Delivered || po.status
                == PurchaseOrderStatus::InProgress)
            &&& subtotal <= u128::MAX
            &&& (tax_rate matches Some(tr) ==> subtotal * tr <= u128::MAX)
            &&& (discount_rate matches Some(dr) ==> subtotal * dr <= u128::MAX)
            &&& ({
                let tax = match tax_rate {
                    Some(tr) => bps_of(subtotal as u128, tr),
                    None => 0,
                };
                let discount = match discount_rate {
                    Some(dr) => bps_of(subtotal as u128, dr),
                    None => 0,
                };
                subtotal + tax <= u128::MAX && discount <= subtotal + tax
            })
            &&& pre.invoice_counter < u64::MAX
            &&& pre.message_counter < u64::MAX
        })
}

/// The full effect of a successful `create_invoice`.
pub open spec fn create_invoice_effect(pre: State, post: State, sender: String, time: u64, po_id: String, seller_agent_id: String, line_items: Vec<InvoiceLineItem>, tax_rate: Option<u64>, discount_rate: Option<u64>, due_date: u64, metadata: Option<String>, resp: Response) -> bool {
    ({
            let po = pre.purchase_orders@[po_id@];
            let iid = invoice_id_text((pre.invoice_counter + 1) as nat, time as nat);
            let mid = message_id_text((pre.message_counter + 1) as nat);
            let subtotal = line_items_subtotal(line_item_views(line_items@));
            let tax = match tax_rate {
                Some(tr) => bps_of(subtotal as u128, tr),
                None => 0,
            };
            let discount = match discount_rate {
                Some(dr) => bps_of(subtotal as u128, dr),
                None => 0,
            };
            let total = subtotal + tax - discount;
            &&& !pre.invoices@.contains_key(iid)
            &&& post.invoices@.dom() == pre.invoices@.dom().insert(iid)
            &&& forall|k: Seq<char>|
                k != iid && pre.invoices@.contains_key(k) ==> post.invoices@[k]
                    == pre.invoices@[k]
            &&& post.invoices@[iid]@ == (InvoiceV {
                invoice_id: iid,
                po_id: po_id@,
                seller_agent_id: seller_agent_id@,
                buyer_agent_id: po.buyer_agent_id@,
                line_items: line_item_views(line_items@),
                subtotal: subtotal as u128,
                tax_rate,
                tax_amount: tax as u128,
                discount_rate,
                discount_amount: discount as u128,
                total_amount: total as u128,
                paid: false,
                paid_at: None,
                created_at: time,
                due_date,
                payment_reference: None,
                metadata: opt_view(metadata),
            })
            &&& post.invoice_counter == pre.invoice_counter + 1
            &&& post.purchase_orders@.dom() == pre.purchase_orders@.dom()
            &&& forall|k: Seq<char>|
                k != po_id@ && pre.purchase_orders@.contains_key(k) ==> post.purchase_orders@[k] == pre.purchase_orders@[k]
            &&& post.purchase_orders@[po_id@]@ == (PurchaseOrderV {
                invoice_id: Some(iid),
                ..po@
            })
            &&& id_appended(
                pre.seller_invoices,
                post.seller_invoices,
                seller_agent_id@,
                iid,
            )
            &&& id_appended(
                pre.buyer_invoices,
                post.buyer_invoices,
                po.buyer_agent_id@,
                iid,
            )
            &&& post.message_counter == pre.message_counter + 1
            &&& post.messages@.dom() == pre.messages@.dom().insert(mid)
            &&& post.messages@[mid]@ == (AgentMessageV {
                message_id: mid,
                from_agent_id: seller_agent_id@,
                to_agent_id: po.buyer_agent_id@,
                message_type: MessageTypeV::Invoice,
                content: invoice_notice(iid, po_id@, seller_agent_id@, total as nat, due_date as nat),
                requires_response: true,
                timestamp: time,
                response: None,
            })
            &&& id_appended(pre.inboxes, post.inboxes, po.buyer_agent_id@, mid)
            &&& id_appended(pre.outboxes, post.outboxes, seller_agent_id@, mid)
            &&& post.agents == pre.agents
            &&& same_directory(pre, post)
            &&& same_wallets(pre, post)
            &&& same_services(pre, post)
            &&& same_ledger(pre, post)
            &&& same_governance(pre, post)
            &&& post.po_counter == pre.po_counter
            &&& post.buyer_pos == pre.buyer_pos
            &&& post.seller_pos == pre.seller_pos
            &&& post.receipts == pre.receipts
            &&& post.financials == pre.financials
            &&& attrs_of(resp) == seq![
                ("method"@, "create_invoice"@),
                ("invoice_id"@, iid),
                ("po_id"@, po_id@),
                ("total_amount"@, dec_of(total as nat)),
            ]
            &&& transfers_of(resp) == Seq::<crate::types::BankTransferV>::empty()
        })
}

/// Issue an invoice against a delivered or in-progress purchase order and
/// notify the buyer.
pub fn create_invoice(
    state: &mut State,
    sender: &String,
    time: u64,
    po_id: String,
    seller_agent_id: String,
    line_items: Vec<InvoiceLineItem>,
    tax_rate: Option<u64>,
    discount_rate: Option<u64>,
    due_date: u64,
    metadata: Option<String>,
) -> (r: Result<Response, ContractError>)
    requires
        old(state).wf(),
    ensures
        final(state).wf(),
        r is Err ==> *final(state) == *old(state),
        !old(state).purchase_orders@.contains_key(po_id@) <==> (r matches Err(
            ContractError::PurchaseOrderNotFound { .. },
        )),
        r is Ok <==> create_invoice_allowed(*old(state), *sender, time, po_id, seller_agent_id, line_items, tax_rate, discount_rate, due_date, metadata),
        r matches Ok(resp) ==> create_invoice_effect(*old(state), *final(state), *sender, time, po_id, seller_agent_id, line_items, tax_rate, discount_rate, due_date, metadata, resp),
{
    let ghost pre = *old(state);
    let po = match state.purchase_orders.get(&po_id) {
        Some(p) => p.dup(),
        None => {
            return Err(ContractError::PurchaseOrderNotFound { po_id });
        },
    };
    match state.agents.get(&seller_agent_id) {
        Some(a) => {
            if !crate::order::str_eq(&a.owner, sender) {
                return Err(ContractError::Unauthorized {
                    reason: String::from_str("Only agent owner can create invoices"),
                });
            }
        },
        None => {
            return Err(ContractError::AgentNotFound { agent_id: seller_agent_id });
        },
    }
    if !crate::order::str_eq(&seller_agent_id, &po.seller_agent_id) {
        return Err(ContractError::Unauthorized {
            reason: String::from_str("Only the seller of this PO can create the invoice"),
        });
    }
    if !(matches!(po.status, PurchaseOrderStatus::Delivered) || matches!(
        po.status,
        PurchaseOrderStatus::InProgress,
    )) {
        return Err(ContractError::InvalidOperation {
            operation: String::from_str("Can only invoice delivered or in-progress orders"),
        });
    }
    let subtotal = match sum_line_items(&line_items) {
        Ok(s) => s,
        Err(e) => {
            return Err(e);
        },
    };
    let tax_amount: u128 = match tax_rate {
        Some(tr) => match mul_bps(subtotal, tr) {
            Ok(v) => v,
            Err(e) => {
                return Err(e);
            },
        },
        None => 0,
    };
    let discount_amount: u128 = match discount_rate {
        Some(dr) => match mul_bps(subtotal, dr) {
            Ok(v) => v,
            Err(e) => {
                return Err(e);
            },
        },
        None => 0,
    };
    if tax_amount > u128::MAX - subtotal {
        return Err(ContractError::Overflow {});
    }
    if discount_amount > subtotal + tax_amount {
        return Err(ContractError::Overflow {});
    }
    let total = subtotal + tax_amount - discount_amount;
    if state.invoice_counter == u64::MAX {
        return Err(ContractError::Overflow {});
    }
    if state.message_counter == u64::MAX {
        return Err(ContractError::Overflow {});
    }
    let counter = state.invoice_counter + 1;
    state.invoice_counter = counter;
    let invoice_id = invoice_id_string(counter, time);
    let ghost iid = invoice_id@;
    proof {
        if pre.invoices@.contains_key(iid) {
            let (n, t) = choose|n: nat, t: nat|
                1 <= n <= pre.invoice_counter && iid == invoice_id_text(n, t);
            lemma_invoice_id_counter(n, t, counter as nat, time as nat);
        }
    }
    let invoice = Invoice {
        invoice_id: invoice_id.clone(),
        po_id: po_id.clone(),
        seller_agent_id: seller_agent_id.clone(),
        buyer_agent_id: po.buyer_agent_id.clone(),
        line_items,
        subtotal,
        tax_rate,
        tax_amount,
        discount_rate,
        discount_amount,
        total_amount: total,
        paid: false,
        paid_at: None,
        created_at: time,
        due_date,
        payment_reference: None,
        metadata,
    };
    state.invoices.insert(invoice_id.clone(), invoice);
    let mut upd = po.dup();
    upd.invoice_id = Some(invoice_id.clone());
    state.purchase_orders.insert(po_id.clone(), upd);
    push_id_list(&mut state.seller_invoices, &seller_agent_id, &invoice_id);
    push_id_list(&mut state.buyer_invoices, &po.buyer_agent_id, &invoice_id);
    let content = invoice_notice_string(&invoice_id, &po_id, &seller_agent_id, total, due_date);
    notify(
        &mut state.messages,
        &mut state.message_counter,
        &mut state.inboxes,
        &mut state.outboxes,
        &seller_agent_id,
        &po.buyer_agent_id,
        MessageType::Invoice,
        content,
        true,
        time,
    );
    proof {
        assert(state.invoices@.dom() =~= pre.invoices@.dom().insert(iid));
        assert(state.purchase_orders@.dom() =~= pre.purchase_orders@.dom());
        assert forall|k: Seq<char>| #[trigger] state.invoices@.contains_key(k) implies exists|
            n: nat,
            t: nat,
        |
            1 <= n <= state.invoice_counter && k == invoice_id_text(n, t) by {
            if k == iid {
                assert(1 <= counter as nat <= state.invoice_counter && k == invoice_id_text(
                    counter as nat,
                    time as nat,
                ));
            } else {
                assert(pre.invoices@.contains_key(k));
                let (n, t) = choose|n: nat, t: nat|
                    1 <= n <= pre.invoice_counter && k == invoice_id_text(n, t);
                assert(1 <= n <= state.invoice_counter && k == invoice_id_text(n, t));
            }
        }
    }
    let mut resp = Response::new();
    resp.push_attr("method", String::from_str("create_invoice"));
    resp.push_attr("invoice_id", invoice_id);
    resp.push_attr("po_id", po_id);
    resp.push_attr("total_amount", crate::text::dec_u128(total));
    proof {
        assert(attrs_of(resp) =~= seq![
            ("method"@, "create_invoice"@),
            ("invoice_id"@, iid),
            ("po_id"@, po_id@),
            ("total_amount"@, dec_of(total as nat)),
        ]);
    }
    Ok(resp)
}

/// When `pay_invoice` accepts.
pub open spec fn pay_invoice_allowed(pre: State, sender: String, time: u64, invoice_id: String, buyer_agent_id: String, payment_reference: Option<String>) -> bool {
    ({
            let inv = pre.invoices@[invoice_id@];
            let total = inv.total_amount;
            let buyer = buyer_agent_id@;
            let seller = inv.seller_agent_id@;
            &&& pre.invoices@.contains_key(invoice_id@)
            &&& pre.agents@.contains_key(buyer)
            &&& pre.agents@[buyer].owner@ == sender@
            &&& buyer == inv.buyer_agent_id@
            &&& !inv.paid
            &&& pre.wallets@.contains_key(buyer)
            &&& pre.wallets@.contains_key(seller)
            &&& pre.purchase_orders@.contains_key(inv.po_id@)
            &&& total <= pre.wallets@[buyer].balance - pre.wallets@[buyer].locked_balance
            &&& (buyer != seller ==> pre.wallets@[seller].balance + total <= u128::MAX)
            &&& pre.config.next_tx_id < u64::MAX
            &&& pre.message_counter < u64::MAX
        })
}

/// The full effect of a successful `pay_invoice`.
pub open spec fn pay_invoice_effect(pre: State, post: State, sender: String, time: u64, invoice_id: String, buyer_agent_id: String, payment_reference: Option<String>, resp: Response) -> bool {
    ({
            let inv = pre.invoices@[invoice_id@];
            let total = inv.total_amount;
            let buyer = buyer_agent_id@;
            let seller = inv.seller_agent_id@;
            let mid = message_id_text((pre.message_counter + 1) as nat);
            &&& post.invoices@.dom() == pre.invoices@.dom()
            &&& forall|k: Seq<char>|
                k != invoice_id@ && pre.invoices@.contains_key(k) ==> post.invoices@[k] == pre.invoices@[k]
            &&& post.invoices@[invoice_id@]@ == (InvoiceV {
                paid: true,
                paid_at: Some(time),
                payment_reference: opt_view(payment_reference),
                ..inv@
            })
            &&& post.wallets@.dom() == pre.wallets@.dom()
            &&& forall|k: Seq<char>|
                k != buyer && k != seller && pre.wallets@.contains_key(k) ==> post.wallets@[k] == pre.wallets@[k]
            &&& (buyer != seller ==> post.wallets@[buyer] == (AgentWallet {
                balance: (pre.wallets@[buyer].balance - total) as u128,
                locked_balance: pre.wallets@[buyer].locked_balance,
            }) && post.wallets@[seller] == (AgentWallet {
                balance: (pre.wallets@[seller].balance + total) as u128,
                locked_balance: pre.wallets@[seller].locked_balance,
            }))
            &&& (buyer == seller ==> post.wallets@[buyer] == pre.wallets@[buyer])
            &&& post.total_funds() == pre.total_funds()
            &&& post.purchase_orders@.dom() == pre.purchase_orders@.dom()
            &&& forall|k: Seq<char>|
                k != inv.po_id@ && pre.purchase_orders@.contains_key(k) ==> post.purchase_orders@[k] == pre.purchase_orders@[k]
            &&& post.purchase_orders@[inv.po_id@]@ == (PurchaseOrderV {
                status: PurchaseOrderStatus::Completed,
                updated_at: time,
                ..pre.purchase_orders@[inv.po_id@]@
            })
            &&& post.transactions@.len() == pre.transactions@.len() + 1
            &&& forall|i: int|
                0 <= i < pre.transactions@.len() ==> post.transactions@[i]
                    == #[trigger] pre.transactions@[i]
            &&& post.transactions@.last()@ == (TransactionRecordV {
                tx_id: pre.config.next_tx_id,
                tx_type: TransactionType::ServicePayment,
                from: Some(buyer),
                to: Some(seller),
                amount: CoinV { denom: pre.config.stablecoin_denom@, amount: total },
                memo: Some("Payment for invoice "@ + invoice_id@),
                timestamp: time,
            })
            &&& post.config.next_tx_id == pre.config.next_tx_id + 1
            &&& post.financials@.dom() == pre.financials@.dom().insert(
                buyer,
            ).insert(seller)
            &&& forall|x: Seq<char>|
                x != buyer && x != seller && pre.financials@.contains_key(x) ==> post.financials@[x] == pre.financials@[x]
            &&& (buyer != seller ==> post.financials@[buyer]@ == fin_bump(
                fin_cur(pre.financials, buyer, time),
                None,
                None,
                time,
            ) && post.financials@[seller]@ == fin_bump(
                fin_cur(pre.financials, seller, time),
                None,
                None,
                time,
            ))
            &&& (buyer == seller ==> post.financials@[buyer]@ == fin_bump(
                fin_bump(fin_cur(pre.financials, buyer, time), None, None, time),
                None,
                None,
                time,
            ))
            &&& post.message_counter == pre.message_counter + 1
            &&& post.messages@.dom() == pre.messages@.dom().insert(mid)
            &&& post.messages@[mid]@ == (AgentMessageV {
                message_id: mid,
                from_agent_id: buyer,
                to_agent_id: seller,
                message_type: MessageTypeV::PaymentNotification,
                content: payment_notice(
                    invoice_id@,
                    inv.po_id@,
                    buyer,
                    total as nat,
                    opt_view(payment_reference),
                ),
                requires_response: false,
                timestamp: time,
                response: None,
            })
            &&& id_appended(pre.inboxes, post.inboxes, seller, mid)
            &&& id_appended(pre.outboxes, post.outboxes, buyer, mid)
            &&& post.agents == pre.agents
            &&& same_directory(pre, post)
            &&& same_services(pre, post)
            &&& same_governance(pre, post)
            &&& post.po_counter == pre.po_counter
            &&& post.buyer_pos == pre.buyer_pos
            &&& post.seller_pos == pre.seller_pos
            &&& post.invoice_counter == pre.invoice_counter
            &&& post.buyer_invoices == pre.buyer_invoices
            &&& post.seller_invoices == pre.seller_invoices
            &&& post.receipts == pre.receipts
            &&& attrs_of(resp) == seq![
                ("method"@, "pay_invoice"@),
                ("invoice_id"@, invoice_id@),
                ("amount"@, dec_of(total as nat)),
            ]
            &&& transfers_of(resp) == Seq::<crate::types::BankTransferV>::empty()
        })
}

/// Pay an invoice: a direct debit of the buyer and credit of the seller,
/// completing the purchase order.
pub fn pay_invoice(
    state: &mut State,
    sender: &String,
    time: u64,
    invoice_id: String,
    buyer_agent_id: String,
    payment_reference: Option<String>,
) -> (r: Result<Response, ContractError>)
    requires
        old(state).wf(),
    ensures
        final(state).wf(),
        r is Err ==> *final(state) == *old(state),
        !old(state).invoices@.contains_key(invoice_id@) <==> (r matches Err(
            ContractError::InvoiceNotFound { .. },
        )),
        old(state).invoices@.contains_key(invoice_id@) && old(state).agents@.contains_key(
            buyer_agent_id@,
        ) && old(state).agents@[buyer_agent_id@].owner@ == sender@ && buyer_agent_id@ == old(
            state,
        ).invoices@[invoice_id@].buyer_agent_id@ && old(state).invoices@[invoice_id@].paid <==> (
        r matches Err(ContractError::InvalidOperation { .. })),
        r is Ok <==> pay_invoice_allowed(*old(state), *sender, time, invoice_id, buyer_agent_id, payment_reference),
        r matches Ok(resp) ==> pay_invoice_effect(*old(state), *final(state), *sender, time, invoice_id, buyer_agent_id, payment_reference, resp),
{
    let ghost pre = *old(state);
    let inv = match state.invoices.get(&invoice_id) {
        Some(v) => v.dup(),
        None => {
            return Err(ContractError::InvoiceNotFound { invoice_id });
        },
    };
    match state.agents.get(&buyer_agent_id) {
        Some(a) => {
            if !crate::order::str_eq(&a.owner, sender) {
                return Err(ContractError::Unauthorized {
                    reason: String::from_str("Only agent owner can pay invoices"),
                });
            }
        },
        None => {
            return Err(ContractError::AgentNotFound { agent_id: buyer_agent_id });
        },
    }
    if !crate::order::str_eq(&buyer_agent_id, &inv.buyer_agent_id) {
        return Err(ContractError::Unauthorized {
            reason: String::from_str("Only the buyer can pay this invoice"),
        });
    }
    if inv.paid {
        return Err(ContractError::InvalidOperation {
            operation: String::from_str("Invoice already paid"),
        });
    }
    let total = inv.total_amount;
    let same_party = crate::order::str_eq(&buyer_agent_id, &inv.seller_agent_id);
    let bw = match state.wallets.get(&buyer_agent_id) {
        Some(w) => *w,
        None => {
            return Err(ContractError::WalletNotInitialized {});
        },
    };
    match state.wallets.get(&inv.seller_agent_id) {
        Some(w) => {
            if !same_party && total > u128::MAX - w.balance {
                return Err(ContractError::Overflow {});
            }
        },
        None => {
            return Err(ContractError::WalletNotInitialized {});
        },
    }
    if !state.purchase_orders.contains_key(&inv.po_id) {
        return Err(ContractError::PurchaseOrderNotFound { po_id: inv.po_id });
    }
    let available = bw.balance - bw.locked_balance;
    if total > available {
        return Err(ContractError::InsufficientBalance { required: total, available });
    }
    if state.config.next_tx_id == u64::MAX {
        return Err(ContractError::Overflow {});
    }
    if state.message_counter == u64::MAX {
        return Err(ContractError::Overflow {});
    }
    // all checks passed: move the funds and update the records
    match crate::wallet::debit(&mut state.wallets, &buyer_agent_id, total) {
        Ok(_) => {},
        Err(_) => {
            proof {
                assert(false);
            }
            return Err(ContractError::Overflow {});
        },
    }
    let ghost wallets_mid = state.wallets;
    proof {
        lemma_wallet_set_sum(
            pre.wallets,
            state.wallets,
            buyer_agent_id@,
            AgentWallet {
                balance: (pre.wallets@[buyer_agent_id@].balance - total) as u128,
                locked_balance: pre.wallets@[buyer_agent_id@].locked_balance,
            },
        );
    }
    match crate::wallet::credit(&mut state.wallets, &inv.seller_agent_id, total) {
        Ok(_) => {},
        Err(_) => {
            proof {
                assert(false);
            }
            return Err(ContractError::Overflow {});
        },
    }
    proof {
        lemma_wallet_set_sum(
            wallets_mid,
            state.wallets,
            inv.seller_agent_id@,
            AgentWallet {
                balance: (wallets_mid@[inv.seller_agent_id@].balance + total) as u128,
                locked_balance: wallets_mid@[inv.seller_agent_id@].locked_balance,
            },
        );
        assert(state.wallets@.dom() =~= pre.wallets@.dom());
    }
    let mut inv_upd = inv.dup();
    inv_upd.paid = true;
    inv_upd.paid_at = Some(time);
    inv_upd.payment_reference = clone_opt_string(&payment_reference);
    state.invoices.insert(invoice_id.clone(), inv_upd);
    let mut po_upd = match state.purchase_orders.get(&inv.po_id) {
        Some(p) => p.dup(),
        None => {
            proof {
                assert(false);
            }
            return Err(ContractError::Overflow {});
        },
    };
    po_upd.status = PurchaseOrderStatus::Completed;
    po_upd.updated_at = time;
    state.purchase_orders.insert(inv.po_id.clone(), po_upd);
    proof {
        assert(state.invoices@.dom() =~= pre.invoices@.dom());
        assert(state.purchase_orders@.dom() =~= pre.purchase_orders@.dom());
    }
    let mut cfg = state.config.dup();
    let mut memo = String::from_str("Payment for invoice ");
    memo.append(invoice_id.as_str());
    let pay_coin = Coin { denom: cfg.stablecoin_denom.clone(), amount: total };
    match record_transaction(
        &mut cfg,
        &mut state.transactions,
        &mut state.agent_transactions,
        TransactionType::ServicePayment,
        Some(buyer_agent_id.clone()),
        Some(inv.seller_agent_id.clone()),
        pay_coin,
        Some(memo),
        time,
    ) {
        Ok(_) => {},
        Err(_) => {
            proof {
                assert(false);
            }
            return Err(ContractError::Overflow {});
        },
    }
    state.config = cfg;
    update_agent_financials(&mut state.financials, &buyer_agent_id, None, None, time);
    update_agent_financials(&mut state.financials, &inv.seller_agent_id, None, None, time);
    let content = payment_notice_string(
        &invoice_id,
        &inv.po_id,
        &buyer_agent_id,
        total,
        &payment_reference,
    );
    notify(
        &mut state.messages,
        &mut state.message_counter,
        &mut state.inboxes,
        &mut state.outboxes,
        &buyer_agent_id,
        &inv.seller_agent_id,
        MessageType::PaymentNotification,
        content,
        false,
        time,
    );
    proof {
        assert(state.financials@.dom() =~= pre.financials@.dom().insert(
            buyer_agent_id@,
        ).insert(inv.seller_agent_id@));
    }
    let mut resp = Response::new();
    resp.push_attr("method", String::from_str("pay_invoice"));
    resp.push_attr("invoice_id", invoice_id);
    resp.push_attr("amount", crate::text::dec_u128(total));
    proof {
        assert(attrs_of(resp) =~= seq![
            ("method"@, "pay_invoice"@),
            ("invoice_id"@, invoice_id@),
            ("amount"@, dec_of(total as nat)),
        ]);
    }
    Ok(resp)
}

/// The receipts of `post` are those of `pre` with `rv` appended under `k`.
pub open spec fn receipt_appended(
    pre: crate::store::StrMap<Vec<Receipt>>,
    post: crate::store::StrMap<Vec<Receipt>>,
    k: Seq<char>,
    rv: ReceiptV,
) -> bool {
    &&& post@.dom() == pre@.dom().insert(k)
    &&& receipt_views(post@[k]@) == (if pre@.contains_key(k) {
        receipt_views(pre@[k]@).push(rv)
    } else {
        seq![rv]
    })
    &&& forall|x: Seq<char>| x != k && pre@.contains_key(x) ==> post@[x] == pre@[x]
}

/// When `confirm_receipt` accepts.
pub open spec fn confirm_receipt_allowed(pre: State, sender: String, time: u64, po_id: String, buyer_agent_id: String, items_received: Vec<ItemReceipt>, notes: Option<String>) -> bool {
    ({
            let po = pre.purchase_orders@[po_id@];
            &&& pre.purchase_orders@.contains_key(po_id@)
            &&& pre.agents@.contains_key(buyer_agent_id@)
            &&& pre.agents@[buyer_agent_id@].owner@ == sender@
            &&& buyer_agent_id@ == po.buyer_agent_id@
            &&& pre.message_counter < u64::MAX
        })
}

/// The full effect of a successful `confirm_receipt`.
pub open spec fn confirm_receipt_effect(pre: State, post: State, sender: String, time: u64, po_id: String, buyer_agent_id: String, items_received: Vec<ItemReceipt>, notes: Option<String>, resp: Response) -> bool {
    ({
            let po = pre.purchase_orders@[po_id@];
            let mid = message_id_text((pre.message_counter + 1) as nat);
            let rv = ReceiptV {
                po_id: po_id@,
                confirmed_by: buyer_agent_id@,
                items_received: crate::state::item_receipt_views(items_received@),
                confirmed_at: time,
                notes: opt_view(notes),
            };
            &&& receipt_appended(pre.receipts, post.receipts, po_id@, rv)
            &&& post.purchase_orders@.dom() == pre.purchase_orders@.dom()
            &&& forall|k: Seq<char>|
                k != po_id@ && pre.purchase_orders@.contains_key(k) ==> post.purchase_orders@[k] == pre.purchase_orders@[k]
            &&& post.purchase_orders@[po_id@]@ == (PurchaseOrderV {
                status: PurchaseOrderStatus::Delivered,
                updated_at: time,
                ..po@
            })
            &&& post.message_counter == pre.message_counter + 1
            &&& post.messages@.dom() == pre.messages@.dom().insert(mid)
            &&& post.messages@[mid]@ == (AgentMessageV {
                message_id: mid,
                from_agent_id: buyer_agent_id@,
                to_agent_id: po.seller_agent_id@,
                message_type: MessageTypeV::ReceiptConfirmation,
                content: receipt_notice(po_id@, buyer_agent_id@, time as nat),
                requires_response: false,
                timestamp: time,
                response: None,
            })
            &&& id_appended(pre.inboxes, post.inboxes, po.seller_agent_id@, mid)
            &&& id_appended(pre.outboxes, post.outboxes, buyer_agent_id@, mid)
            &&& post.agents == pre.agents
            &&& same_directory(pre, post)
            &&& same_wallets(pre, post)
            &&& same_services(pre, post)
            &&& same_ledger(pre, post)
            &&& same_governance(pre, post)
            &&& post.po_counter == pre.po_counter
            &&& post.buyer_pos == pre.buyer_pos
            &&& post.seller_pos == pre.seller_pos
            &&& post.invoices == pre.invoices
            &&& post.invoice_counter == pre.invoice_counter
            &&& post.buyer_invoices == pre.buyer_invoices
            &&& post.seller_invoices == pre.seller_invoices
            &&& post.financials == pre.financials
            &&& attrs_of(resp) == seq![
                ("method"@, "confirm_receipt"@),
                ("po_id"@, po_id@),
                ("confirmed_by"@, buyer_agent_id@),
            ]
            &&& transfers_of(resp) == Seq::<crate::types::BankTransferV>::empty()
        })
}

/// Record a delivery confirmation and mark the order delivered; repeated
/// receipts represent partial deliveries and are all kept.
pub fn confirm_receipt(
    state: &mut State,
    sender: &String,
    time: u64,
    po_id: String,
    buyer_agent_id: String,
    items_received: Vec<ItemReceipt>,
    notes: Option<String>,
) -> (r: Result<Response, ContractError>)
    requires
        old(state).wf(),
    ensures
        final(state).wf(),
        r is Err ==> *final(state) == *old(state),
        !old(state).purchase_orders@.contains_key(po_id@) <==> (r matches Err(
            ContractError::PurchaseOrderNotFound { .. },
        )),
        r is Ok <==> confirm_receipt_allowed(*old(state), *sender, time, po_id, buyer_agent_id, items_received, notes),
        r matches Ok(resp) ==> confirm_receipt_effect(*old(state), *final(state), *sender, time, po_id, buyer_agent_id, items_received, notes, resp),
{
    let ghost pre = *old(state);
    let po = match state.purchase_orders.get(&po_id) {
        Some(p) => p.dup(),
        None => {
            return Err(ContractError::PurchaseOrderNotFound { po_id });
        },
    };
    match state.agents.get(&buyer_agent_id) {
        Some(a) => {
            if !crate::order::str_eq(&a.owner, sender) {
                return Err(ContractError::Unauthorized {
                    reason: String::from_str("Only agent owner can confirm receipt"),
                });
            }
        },
        None => {
            return Err(ContractError::AgentNotFound { agent_id: buyer_agent_id });
        },
    }
    if !crate::order::str_eq(&buyer_agent_id, &po.buyer_agent_id) {
        return Err(ContractError::Unauthorized {
            reason: String::from_str("Only the buyer can confirm receipt"),
        });
    }
    if state.message_counter == u64::MAX {
        return Err(ContractError::Overflow {});
    }
    // all checks passed: append the receipt and mark the order delivered
    let receipt = Receipt {
        po_id: po_id.clone(),
        confirmed_by: buyer_agent_id.clone(),
        items_received,
        confirmed_at: time,
        notes,
    };
    let ghost rv = receipt@;
    let new_list: Vec<Receipt> = match state.receipts.get(&po_id) {
        Some(l) => {
            let mut l2 = crate::state::clone_receipts(l);
            l2.push(receipt);
            proof {
                assert(receipt_views(l2@) =~= receipt_views(pre.receipts@[po_id@]@).push(rv));
            }
            l2
        },
        None => {
            let mut l2: Vec<Receipt> = Vec::new();
            l2.push(receipt);
            proof {
                assert(receipt_views(l2@) =~= seq![rv]);
            }
            l2
        },
    };
    state.receipts.insert(po_id.clone(), new_list);
    let mut upd = po.dup();
    upd.status = PurchaseOrderStatus::Delivered;
    upd.updated_at = time;
    state.purchase_orders.insert(po_id.clone(), upd);
    proof {
        assert(state.purchase_orders@.dom() =~= pre.purchase_orders@.dom());
    }
    let content = receipt_notice_string(&po_id, &buyer_agent_id, time);
    notify(
        &mut state.messages,
        &mut state.message_counter,
        &mut state.inboxes,
        &mut state.outboxes,
        &buyer_agent_id,
        &po.seller_agent_id,
        MessageType::ReceiptConfirmation,
        content,
        false,
        time,
    );
    let mut resp = Response::new();
    resp.push_attr("method", String::from_str("confirm_receipt"));
    resp.push_attr("po_id", po_id);
    resp.push_attr("confirmed_by", buyer_agent_id);
    proof {
        assert(attrs_of(resp) =~= seq![
            ("method"@, "confirm_receipt"@),
            ("po_id"@, po_id@),
            ("confirmed_by"@, buyer_agent_id@),
        ]);
    }
    Ok(resp)
}

/// When `initiate_refund` accepts.
pub open spec fn initiate_refund_allowed(pre: State, sender: String, time: u64, invoice_id: String, requester_agent_id: String, amount: Coin, reason: String) -> bool {
    ({
            let inv = pre.invoices@[invoice_id@];
            &&& pre.invoices@.contains_key(invoice_id@)
            &&& pre.agents@.contains_key(requester_agent_id@)
            &&& pre.agents@[requester_agent_id@].owner@ == sender@
            &&& (requester_agent_id@ == inv.buyer_agent_id@ || requester_agent_id@
                == inv.seller_agent_id@)
            &&& inv.paid
            &&& pre.message_counter < u64::MAX
        })
}

/// The full effect of a successful `initiate_refund`.
pub open spec fn initiate_refund_effect(pre: State, post: State, sender: String, time: u64, invoice_id: String, requester_agent_id: String, amount: Coin, reason: String, resp: Response) -> bool {
    ({
            let inv = pre.invoices@[invoice_id@];
            let recipient = if requester_agent_id@ == inv.buyer_agent_id@ {
                inv.seller_agent_id@
            } else {
                inv.buyer_agent_id@
            };
            let mid = message_id_text((pre.message_counter + 1) as nat);
            &&& post.message_counter == pre.message_counter + 1
            &&& post.messages@.dom() == pre.messages@.dom().insert(mid)
            &&& post.messages@[mid]@ == (AgentMessageV {
                message_id: mid,
                from_agent_id: requester_agent_id@,
                to_agent_id: recipient,
                message_type: MessageTypeV::Custom("RefundRequest"@),
                content: refund_notice(
                    invoice_id@,
                    requester_agent_id@,
                    amount.amount as nat,
                    reason@,
                    inv.total_amount as nat,
                ),
                requires_response: true,
                timestamp: time,
                response: None,
            })
            &&& id_appended(pre.inboxes, post.inboxes, recipient, mid)
            &&& id_appended(pre.outboxes, post.outboxes, requester_agent_id@, mid)
            &&& post.invoices == pre.invoices
            &&& post.agents == pre.agents
            &&& same_directory(pre, post)
            &&& same_wallets(pre, post)
            &&& same_services(pre, post)
            &&& same_ledger(pre, post)
            &&& same_governance(pre, post)
            &&& post.po_counter == pre.po_counter
            &&& post.buyer_pos == pre.buyer_pos
            &&& post.seller_pos == pre.seller_pos
            &&& post.purchase_orders == pre.purchase_orders
            &&& post.invoice_counter == pre.invoice_counter
            &&& post.buyer_invoices == pre.buyer_invoices
            &&& post.seller_invoices == pre.seller_invoices
            &&& post.receipts == pre.receipts
            &&& post.financials == pre.financials
            &&& attrs_of(resp) == seq![
                ("method"@, "initiate_refund"@),
                ("invoice_id"@, invoice_id@),
                ("requested_by"@, requester_agent_id@),
                ("amount"@, dec_of(amount.amount as nat)),
            ]
            &&& transfers_of(resp) == Seq::<crate::types::BankTransferV>::empty()
        })
}

/// Ask the counterparty of a paid invoice for a refund; no funds move, the
/// request only lands in the counterparty's inbox.
pub fn initiate_refund(
    state: &mut State,
    sender: &String,
    time: u64,
    invoice_id: String,
    requester_agent_id: String,
    amount: Coin,
    reason: String,
) -> (r: Result<Response, ContractError>)
    requires
        old(state).wf(),
    ensures
        final(state).wf(),
        r is Err ==> *final(state) == *old(state),
        !old(state).invoices@.contains_key(invoice_id@) <==> (r matches Err(
            ContractError::InvoiceNotFound { .. },
        )),
        r is Ok <==> initiate_refund_allowed(*old(state), *sender, time, invoice_id, requester_agent_id, amount, reason),
        r matches Ok(resp) ==> initiate_refund_effect(*old(state), *final(state), *sender, time, invoice_id, requester_agent_id, amount, reason, resp),
{
    let inv = match state.invoices.get(&invoice_id) {
        Some(v) => v.dup(),
        None => {
            return Err(ContractError::InvoiceNotFound { invoice_id });
        },
    };
    match state.agents.get(&requester_agent_id) {
        Some(a) => {
            if !crate::order::str_eq(&a.owner, sender) {
                return Err(ContractError::Unauthorized {
                    reason: String::from_str("Only agent owner can request refunds"),
                });
            }
        },
        None => {
            return Err(ContractError::AgentNotFound { agent_id: requester_agent_id });
        },
    }
    let is_buyer = crate::order::str_eq(&requester_agent_id, &inv.buyer_agent_id);
    let is_seller = crate::order::str_eq(&requester_agent_id, &inv.seller_agent_id);
    if !is_buyer && !is_seller {
        return Err(ContractError::Unauthorized {
            reason: String::from_str("Only buyer or seller can request a refund"),
        });
    }
    if !inv.paid {
        return Err(ContractError::InvalidOperation {
            operation: String::from_str("Cannot refund unpaid invoice"),
        });
    }
    if state.message_counter == u64::MAX {
        return Err(ContractError::Overflow {});
    }
    let recipient = if is_buyer {
        inv.seller_agent_id.clone()
    } else {
        inv.buyer_agent_id.clone()
    };
    let content = refund_notice_string(
        &invoice_id,
        &requester_agent_id,
        amount.amount,
        &reason,
        inv.total_amount,
    );
    notify(
        &mut state.messages,
        &mut state.message_counter,
        &mut state.inboxes,
        &mut state.outboxes,
        &requester_agent_id,
        &recipient,
        MessageType::Custom(String::from_str("RefundRequest")),
        content,
        true,
        time,
    );
    let mut resp = Response::new();
    resp.push_attr("method", String::from_str("initiate_refund"));
    resp.push_attr("invoice_id", invoice_id);
    resp.push_attr("requested_by", requester_agent_id);
    resp.push_attr("amount", crate::text::dec_u128(amount.amount));
    proof {
        assert(attrs_of(resp) =~= seq![
            ("method"@, "initiate_refund"@),
            ("invoice_id"@, invoice_id@),
            ("requested_by"@, requester_agent_id@),
            ("amount"@, dec_of(amount.amount as nat)),
        ]);
    }
    Ok(resp)
}

/// The message ids stored in a list map under a key, or nothing.
pub open spec fn ids_of(lists: crate::store::StrMap<Vec<String>>, k: Seq<char>) -> Seq<Seq<char>> {
    if lists@.contains_key(k) {
        views_of(lists@[k]@)
    } else {
        Seq::empty()
    }
}

/// The sum of unpaid invoice totals among the listed ids inside the window.
pub open spec fn unpaid_total(
    invoices: crate::store::StrMap<Invoice>,
    ids: Seq<Seq<char>>,
    start: u64,
    end: u64,
) -> int
    decreases ids.len(),
{
    if ids.len() == 0 {
        0
    } else {
        unpaid_total(invoices, ids.drop_last(), start, end) + {
            let k = ids.last();
            if invoices@.contains_key(k) && start <= invoices@[k].created_at
                && invoices@[k].created_at <= end && !invoices@[k].paid {
                invoices@[k].total_amount as int
            } else {
                0
            }
        }
    }
}

/// How many listed orders inside the window are completed.
pub open spec fn completed_count(
    pos: crate::store::StrMap<PurchaseOrder>,
    ids: Seq<Seq<char>>,
    start: u64,
    end: u64,
) -> int
    decreases ids.len(),
{
    if ids.len() == 0 {
        0
    } else {
        completed_count(pos, ids.drop_last(), start, end) + {
            let k = ids.last();
            if pos@.contains_key(k) && start <= pos@[k].created_at && pos@[k].created_at <= end
                && pos@[k].status == PurchaseOrderStatus::Completed {
                1int
            } else {
                0
            }
        }
    }
}

/// How many listed orders inside the window are open: neither completed,
/// nor still drafts, nor cancelled.
pub open spec fn pending_count(
    pos: crate::store::StrMap<PurchaseOrder>,
    ids: Seq<Seq<char>>,
    start: u64,
    end: u64,
) -> int
    decreases ids.len(),
{
    if ids.len() == 0 {
        0
    } else {
        pending_count(pos, ids.drop_last(), start, end) + {
            let k = ids.last();
            if pos@.contains_key(k) && start <= pos@[k].created_at && pos@[k].created_at <= end
                && pos@[k].status != PurchaseOrderStatus::Completed && pos@[k].status
                != PurchaseOrderStatus::Draft && pos@[k].status != PurchaseOrderStatus::Cancelled {
                1int
            } else {
                0
            }
        }
    }
}

/// The financial record reconciliation derives by a full rescan.
pub open spec fn reconciled_fin(
    s: State,
    agent: Seq<char>,
    start: u64,
    end: u64,
    t: u64,
) -> AgentFinancialsV {
    let cur = fin_cur(s.financials, agent, t);
    AgentFinancialsV {
        agent_id: agent,
        total_sales: cur.total_sales,
        total_purchases: cur.total_purchases,
        outstanding_receivables: unpaid_total(
            s.invoices,
            ids_of(s.seller_invoices, agent),
            start,
            end,
        ) as u128,
        outstanding_payables: unpaid_total(
            s.invoices,
            ids_of(s.buyer_invoices, agent),
            start,
            end,
        ) as u128,
        completed_orders: (completed_count(s.purchase_orders, ids_of(s.buyer_pos, agent), start, end)
            + completed_count(s.purchase_orders, ids_of(s.seller_pos, agent), start, end)) as u64,
        pending_orders: (pending_count(s.purchase_orders, ids_of(s.buyer_pos, agent), start, end)
            + pending_count(s.purchase_orders, ids_of(s.seller_pos, agent), start, end)) as u64,
        last_updated: t,
    }
}

/// The recomputed quantities fit their machine words.
pub open spec fn reconcile_fits(s: State, agent: Seq<char>, start: u64, end: u64) -> bool {
    &&& unpaid_total(s.invoices, ids_of(s.seller_invoices, agent), start, end) <= u128::MAX
    &&& unpaid_total(s.invoices, ids_of(s.buyer_invoices, agent), start, end) <= u128::MAX
    &&& completed_count(s.purchase_orders, ids_of(s.buyer_pos, agent), start, end)
        + completed_count(s.purchase_orders, ids_of(s.seller_pos, agent), start, end) <= u64::MAX
    &&& pending_count(s.purchase_orders, ids_of(s.buyer_pos, agent), start, end) + pending_count(
        s.purchase_orders,
        ids_of(s.seller_pos, agent),
        start,
        end,
    ) <= u64::MAX
}

/// Sum the unpaid invoices of one id list with checked arithmetic.
fn sum_unpaid(
    invoices: &crate::store::StrMap<Invoice>,
    lists: &crate::store::StrMap<Vec<String>>,
    agent_id: &String,
    start: u64,
    end: u64,
) -> (r: Result<u128, ContractError>)
    requires
        invoices.wf(),
        lists.wf(),
    ensures
        r is Ok <==> unpaid_total(*invoices, ids_of(*lists, agent_id@), start, end) <= u128::MAX,
        r matches Ok(v) ==> v == unpaid_total(*invoices, ids_of(*lists, agent_id@), start, end),
        r is Err ==> r matches Err(ContractError::Overflow { .. }),
{
    let ghost ids = ids_of(*lists, agent_id@);
    proof {
        lemma_unpaid_total_nonneg(*invoices, ids, start, end);
    }
    let list = match lists.get(agent_id) {
        Some(l) => l,
        None => {
            return Ok(0);
        },
    };
    let n = list.len();
    let mut acc: u128 = 0;
    let mut i: usize = 0;
    while i < n
        invariant
            i <= n,
            n == list@.len(),
            invoices.wf(),
            ids == ids_of(*lists, agent_id@),
            ids == views_of(list@),
            ids.len() == n,
            forall|j: int| 0 <= j < n ==> #[trigger] ids[j] == list@[j]@,
            acc == unpaid_total(*invoices, ids.take(i as int), start, end),
        decreases n - i,
    {
        proof {
            assert(ids.take(i + 1).drop_last() =~= ids.take(i as int));
            assert(ids.take(i + 1).last() == ids[i as int]);
        }
        let id = &list[i];
        match invoices.get(id) {
            Some(inv) => {
                if inv.created_at >= start && inv.created_at <= end && !inv.paid {
                    if inv.total_amount > u128::MAX - acc {
                        proof {
                            lemma_unpaid_total_prefix(*invoices, ids, i + 1, start, end);
                        }
                        return Err(ContractError::Overflow {});
                    }
                    acc = acc + inv.total_amount;
                }
            },
            None => {},
        }
        i = i + 1;
    }
    proof {
        assert(ids.take(n as int) =~= ids);
    }
    Ok(acc)
}

proof fn lemma_unpaid_total_nonneg(
    invoices: crate::store::StrMap<Invoice>,
    ids: Seq<Seq<char>>,
    start: u64,
    end: u64,
)
    ensures
        unpaid_total(invoices, ids, start, end) >= 0,
    decreases ids.len(),
{
    if ids.len() > 0 {
        lemma_unpaid_total_nonneg(invoices, ids.drop_last(), start, end);
    }
}

proof fn lemma_unpaid_total_prefix(
    invoices: crate::store::StrMap<Invoice>,
    ids: Seq<Seq<char>>,
    j: int,
    start: u64,
    end: u64,
)
    requires
        0 <= j <= ids.len(),
    ensures
        unpaid_total(invoices, ids.take(j), start, end) <= unpaid_total(invoices, ids, start, end),
    decreases ids.len() - j,
{
    if j == ids.len() {
        assert(ids.take(j) =~= ids);
    } else {
        lemma_unpaid_total_prefix(invoices, ids, j + 1, start, end);
        assert(ids.take(j + 1).drop_last() =~= ids.take(j));
        assert(ids.take(j + 1).last() == ids[j]);
    }
}

/// Count completed and open orders in one id list, starting from given
/// tallies and failing when a tally would overflow.
fn count_orders(
    pos: &crate::store::StrMap<PurchaseOrder>,
    lists: &crate::store::StrMap<Vec<String>>,
    agent_id: &String,
    start: u64,
    end: u64,
    completed_base: u64,
    pending_base: u64,
) -> (r: Result<(u64, u64), ContractError>)
    requires
        pos.wf(),
        lists.wf(),
    ensures
        r is Ok <==> completed_base + completed_count(*pos, ids_of(*lists, agent_id@), start, end)
            <= u64::MAX && pending_base + pending_count(*pos, ids_of(*lists, agent_id@), start, end)
            <= u64::MAX,
        r matches Ok(v) ==> v.0 == completed_base + completed_count(
            *pos,
            ids_of(*lists, agent_id@),
            start,
            end,
        ) && v.1 == pending_base + pending_count(*pos, ids_of(*lists, agent_id@), start, end),
        r is Err ==> r matches Err(ContractError::Overflow { .. }),
{
    let ghost ids = ids_of(*lists, agent_id@);
    proof {
        lemma_count_nonneg(*pos, ids, start, end);
    }
    let list = match lists.get(agent_id) {
        Some(l) => l,
        None => {
            return Ok((completed_base, pending_base));
        },
    };
    let n = list.len();
    let mut completed: u64 = completed_base;
    let mut pending: u64 = pending_base;
    let mut i: usize = 0;
    while i < n
        invariant
            i <= n,
            n == list@.len(),
            pos.wf(),
            ids == ids_of(*lists, agent_id@),
            ids == views_of(list@),
            ids.len() == n,
            forall|j: int| 0 <= j < n ==> #[trigger] ids[j] == list@[j]@,
            completed == completed_base + completed_count(*pos, ids.take(i as int), start, end),
            pending == pending_base + pending_count(*pos, ids.take(i as int), start, end),
        decreases n - i,
    {
        proof {
            assert(ids.take(i + 1).drop_last() =~= ids.take(i as int));
            assert(ids.take(i + 1).last() == ids[i as int]);
        }
        let id = &list[i];
        match pos.get(id) {
            Some(po) => {
                if po.created_at >= start && po.created_at <= end {
                    if matches!(po.status, PurchaseOrderStatus::Completed) {
                        if completed == u64::MAX {
                            proof {
                                lemma_count_prefix(*pos, ids, i + 1, start, end);
                            }
                            return Err(ContractError::Overflow {});
                        }
                        completed = completed + 1;
                    } else if !(matches!(po.status, PurchaseOrderStatus::Draft) || matches!(
                        po.status,
                        PurchaseOrderStatus::Cancelled,
                    )) {
                        if pending == u64::MAX {
                            proof {
                                lemma_count_prefix(*pos, ids, i + 1, start, end);
                            }
                            return Err(ContractError::Overflow {});
                        }
                        pending = pending + 1;
                    }
                }
            },
            None => {},
        }
        i = i + 1;
    }
    proof {
        assert(ids.take(n as int) =~= ids);
    }
    Ok((completed, pending))
}

proof fn lemma_count_prefix(
    pos: crate::store::StrMap<PurchaseOrder>,
    ids: Seq<Seq<char>>,
    j: int,
    start: u64,
    end: u64,
)
    requires
        0 <= j <= ids.len(),
    ensures
        completed_count(pos, ids.take(j), start, end) <= completed_count(pos, ids, start, end),
        pending_count(pos, ids.take(j), start, end) <= pending_count(pos, ids, start, end),
        completed_count(pos, ids.take(j), start, end) >= 0,
        pending_count(pos, ids.take(j), start, end) >= 0,
    decreases ids.len() - j,
{
    if j == ids.len() {
        assert(ids.take(j) =~= ids);
        lemma_count_nonneg(pos, ids, start, end);
    } else {
        lemma_count_prefix(pos, ids, j + 1, start, end);
        assert(ids.take(j + 1).drop_last() =~= ids.take(j));
        assert(ids.take(j + 1).last() == ids[j]);
        lemma_count_nonneg(pos, ids.take(j), start, end);
    }
}

proof fn lemma_count_nonneg(
    pos: crate::store::StrMap<PurchaseOrder>,
    ids: Seq<Seq<char>>,
    start: u64,
    end: u64,
)
    ensures
        completed_count(pos, ids, start, end) >= 0,
        pending_count(pos, ids, start, end) >= 0,
    decreases ids.len(),
{
    if ids.len() > 0 {
        lemma_count_nonneg(pos, ids.drop_last(), start, end);
    }
}

/// When `reconcile_accounts` accepts.
pub open spec fn reconcile_accounts_allowed(pre: State, sender: String, time: u64, agent_id: String, period_start: u64, period_end: u64) -> bool {
    ({
            &&& pre.agents@.contains_key(agent_id@)
            &&& pre.agents@[agent_id@].owner@ == sender@
            &&& reconcile_fits(pre, agent_id@, period_start, period_end)
        })
}

/// The full effect of a successful `reconcile_accounts`.
pub open spec fn reconcile_accounts_effect(pre: State, post: State, sender: String, time: u64, agent_id: String, period_start: u64, period_end: u64, resp: Response) -> bool {
    ({
            let f = reconciled_fin(pre, agent_id@, period_start, period_end, time);
            &&& post.financials@.dom() == pre.financials@.dom().insert(agent_id@)
            &&& forall|x: Seq<char>|
                x != agent_id@ && pre.financials@.contains_key(x) ==> post.financials@[x] == pre.financials@[x]
            &&& post.financials@[agent_id@]@ == f
            &&& post.agents == pre.agents
            &&& same_directory(pre, post)
            &&& same_wallets(pre, post)
            &&& same_services(pre, post)
            &&& same_ledger(pre, post)
            &&& same_messaging(pre, post)
            &&& same_governance(pre, post)
            &&& post.purchase_orders == pre.purchase_orders
            &&& post.po_counter == pre.po_counter
            &&& post.buyer_pos == pre.buyer_pos
            &&& post.seller_pos == pre.seller_pos
            &&& post.invoices == pre.invoices
            &&& post.invoice_counter == pre.invoice_counter
            &&& post.buyer_invoices == pre.buyer_invoices
            &&& post.seller_invoices == pre.seller_invoices
            &&& post.receipts == pre.receipts
            &&& attrs_of(resp) == seq![
                ("method"@, "reconcile_accounts"@),
                ("agent_id"@, agent_id@),
                ("outstanding_receivables"@, dec_of(f.outstanding_receivables as nat)),
                ("outstanding_payables"@, dec_of(f.outstanding_payables as nat)),
                ("completed_orders"@, dec_of(f.completed_orders as nat)),
                ("pending_orders"@, dec_of(f.pending_orders as nat)),
            ]
            &&& transfers_of(resp) == Seq::<crate::types::BankTransferV>::empty()
        })
}

/// Recompute an agent's financial position by a full rescan of its
/// invoices and purchase orders within the window.  The recomputation is
/// deterministic and idempotent.
pub fn reconcile_accounts(
    state: &mut State,
    sender: &String,
    time: u64,
    agent_id: String,
    period_start: u64,
    period_end: u64,
) -> (r: Result<Response, ContractError>)
    requires
        old(state).wf(),
    ensures
        final(state).wf(),
        r is Err ==> *final(state) == *old(state),
        !old(state).agents@.contains_key(agent_id@) <==> (r matches Err(
            ContractError::AgentNotFound { .. },
        )),
        old(state).agents@.contains_key(agent_id@) && old(state).agents@[agent_id@].owner@
            != sender@ <==> (r matches Err(ContractError::Unauthorized { .. })),
        r is Ok <==> reconcile_accounts_allowed(*old(state), *sender, time, agent_id, period_start, period_end),
        r matches Ok(resp) ==> reconcile_accounts_effect(*old(state), *final(state), *sender, time, agent_id, period_start, period_end, resp),
{
    let ghost pre = *old(state);
    match state.agents.get(&agent_id) {
        Some(a) => {
            if !crate::order::str_eq(&a.owner, sender) {
                return Err(ContractError::Unauthorized {
                    reason: String::from_str("Only agent owner can reconcile accounts"),
                });
            }
        },
        None => {
            return Err(ContractError::AgentNotFound { agent_id });
        },
    }
    let receivables = match sum_unpaid(
        &state.invoices,
        &state.seller_invoices,
        &agent_id,
        period_start,
        period_end,
    ) {
        Ok(v) => v,
        Err(e) => {
            return Err(e);
        },
    };
    let payables = match sum_unpaid(
        &state.invoices,
        &state.buyer_invoices,
        &agent_id,
        period_start,
        period_end,
    ) {
        Ok(v) => v,
        Err(e) => {
            return Err(e);
        },
    };
    proof {
        lemma_count_nonneg(
            state.purchase_orders,
            ids_of(state.buyer_pos, agent_id@),
            period_start,
            period_end,
        );
        lemma_count_nonneg(
            state.purchase_orders,
            ids_of(state.seller_pos, agent_id@),
            period_start,
            period_end,
        );
    }
    let (completed_b, pending_b) = match count_orders(
        &state.purchase_orders,
        &state.buyer_pos,
        &agent_id,
        period_start,
        period_end,
        0,
        0,
    ) {
        Ok(v) => v,
        Err(e) => {
            return Err(e);
        },
    };
    let (completed, pending) = match count_orders(
        &state.purchase_orders,
        &state.seller_pos,
        &agent_id,
        period_start,
        period_end,
        completed_b,
        pending_b,
    ) {
        Ok(v) => v,
        Err(e) => {
            return Err(e);
        },
    };
    let (sales, purchases) = match state.financials.get(&agent_id) {
        Some(f) => (f.total_sales, f.total_purchases),
        None => (0, 0),
    };
    let record = AgentFinancials {
        agent_id: agent_id.clone(),
        total_sales: sales,
        total_purchases: purchases,
        outstanding_receivables: receivables,
        outstanding_payables: payables,
        completed_orders: completed,
        pending_orders: pending,
        last_updated: time,
    };
    state.financials.insert(agent_id.clone(), record);
    let mut resp = Response::new();
    resp.push_attr("method", String::from_str("reconcile_accounts"));
    resp.push_attr("agent_id", agent_id);
    resp.push_attr("outstanding_receivables", crate::text::dec_u128(receivables));
    resp.push_attr("outstanding_payables", crate::text::dec_u128(payables));
    resp.push_attr("completed_orders", crate::text::dec_u64(completed));
    resp.push_attr("pending_orders", crate::text::dec_u64(pending));
    proof {
        let f = reconciled_fin(pre, agent_id@, period_start, period_end, time);
        assert(attrs_of(resp) =~= seq![
            ("method"@, "reconcile_accounts"@),
            ("agent_id"@, agent_id@),
            ("outstanding_receivables"@, dec_of(f.outstanding_receivables as nat)),
            ("outstanding_payables"@, dec_of(f.outstanding_payables as nat)),
            ("completed_orders"@, dec_of(f.completed_orders as nat)),
            ("pending_orders"@, dec_of(f.pending_orders as nat)),
        ]);
    }
    Ok(resp)
}

} // verus!
