//! The library's standing guarantees, stated once over the state model.
//! Balance conservation itself is part of each money-moving call's
//! contract: `agent_transfer`, `batch_agent_transfer`, and `pay_invoice`
//! each ensure `total_funds` unchanged, `complete_service` ensures it drops
//! by exactly the fee, and `fund_agent` / `withdraw_from_agent` /
//! `register_agent` ensure it moves by exactly the deposit or withdrawal.

use vstd::prelude::*;

use crate::exec_procurement::{po_transition_allowed, reconciled_fin};
use crate::exec_services::{complete_service_allowed, refund_service_allowed};
use crate::state::{sum_balances, wallet_ok, AgentWallet, State};
use crate::types::{PurchaseOrderStatus, ServiceStatus};

verus! {

/// The registry never holds a negative total: the sum of all balances is
/// a sum of machine words.
pub proof fn lemma_sum_balances_nonneg(s: Seq<AgentWallet>)
    ensures
        sum_balances(s) >= 0,
    decreases s.len(),
{
    if s.len() > 0 {
        lemma_sum_balances_nonneg(s.drop_last());
    }
}

/// The escrow invariant: in a well-formed state every wallet's locked
/// funds stay within its balance.  Every call of the library preserves
/// well-formedness, so this holds at every observable point.
pub proof fn lemma_escrow_invariant(s: State)
    requires
        s.wf(),
    ensures
        forall|k: Seq<char>|
            #[trigger] s.wallets@.contains_key(k) ==> wallet_ok(s.wallets@[k]),
        forall|k: Seq<char>|
            #[trigger] s.wallets@.contains_key(k) ==> s.wallets@[k].locked_balance
                <= s.wallets@[k].balance,
{
}

/// Transaction ids are strictly increasing along the log and are never
/// reused: the id of the record at each position is the position plus one,
/// and a failed call leaves the log and its counter untouched.
pub proof fn lemma_tx_ids_strictly_increasing(s: State)
    requires
        s.wf(),
    ensures
        forall|i: int, j: int|
            0 <= i < j < s.transactions@.len() ==> (#[trigger] s.transactions@[i]).tx_id
                < (#[trigger] s.transactions@[j]).tx_id,
{
}

/// Message, purchase-order, and invoice ids are allocated below their
/// counters, which only grow; so an id, once used, is never reused.
pub proof fn lemma_ids_below_counters(s: State)
    requires
        s.wf(),
    ensures
        forall|k: Seq<char>|
            #[trigger] s.messages@.contains_key(k) ==> exists|n: nat|
                1 <= n <= s.message_counter && k == crate::ids::message_id_text(n),
        forall|k: Seq<char>|
            #[trigger] s.purchase_orders@.contains_key(k) ==> exists|n: nat, t: nat|
                1 <= n <= s.po_counter && k == crate::ids::po_id_text(n, t),
        forall|k: Seq<char>|
            #[trigger] s.invoices@.contains_key(k) ==> exists|n: nat, t: nat|
                1 <= n <= s.invoice_counter && k == crate::ids::invoice_id_text(n, t),
{
}

/// A completed or refunded service is terminal: no caller can drive it
/// through `complete_service` or `refund_service` again.  Both contracts
/// accept exactly when their named condition holds and otherwise fail with
/// `InvalidServiceStatus`, leaving the state untouched; so calling either
/// twice on the same id fails the second time.
pub proof fn lemma_service_terminal(s: State, k: Seq<char>)
    requires
        s.wf(),
        s.services@.contains_key(k),
        s.services@[k].status == ServiceStatus::Completed || s.services@[k].status
            == ServiceStatus::Refunded,
    ensures
        forall|sender: Seq<char>| !complete_service_allowed(s, k, sender),
        forall|sender: Seq<char>| !refund_service_allowed(s, k, sender),
{
}

/// The purchase-order workflow table is exhaustive: exactly four forward
/// transitions are listed, and `update_purchase_order` rejects every other
/// pair with an invalid-transition error.  In particular a draft cannot be
/// accepted directly.
pub proof fn lemma_po_transition_table(from: PurchaseOrderStatus, to: PurchaseOrderStatus)
    ensures
        po_transition_allowed(from, to) <==> ((from == PurchaseOrderStatus::Draft && to
            == PurchaseOrderStatus::Submitted) || (from == PurchaseOrderStatus::Submitted && (to
            == PurchaseOrderStatus::Accepted || to == PurchaseOrderStatus::Rejected)) || (from
            == PurchaseOrderStatus::Accepted && to == PurchaseOrderStatus::InProgress)),
        !po_transition_allowed(PurchaseOrderStatus::Draft, PurchaseOrderStatus::Accepted),
        !po_transition_allowed(PurchaseOrderStatus::Completed, PurchaseOrderStatus::Draft),
        !po_transition_allowed(PurchaseOrderStatus::Rejected, PurchaseOrderStatus::Accepted),
{
}

/// Reconciliation is idempotent: a second run over an unchanged ledger
/// derives the same financial record, because the recomputation reads only
/// the invoices, orders, and index lists, and keeps the cumulative sales
/// and purchase totals it does not recompute.
pub proof fn lemma_reconcile_idempotent(
    s1: State,
    s2: State,
    agent: Seq<char>,
    start: u64,
    end: u64,
    t: u64,
)
    requires
        s2.invoices == s1.invoices,
        s2.buyer_invoices == s1.buyer_invoices,
        s2.seller_invoices == s1.seller_invoices,
        s2.purchase_orders == s1.purchase_orders,
        s2.buyer_pos == s1.buyer_pos,
        s2.seller_pos == s1.seller_pos,
        s2.financials@.contains_key(agent),
        s2.financials@[agent]@ == reconciled_fin(s1, agent, start, end, t),
    ensures
        reconciled_fin(s2, agent, start, end, t) == reconciled_fin(s1, agent, start, end, t),
{
}

} // verus!
