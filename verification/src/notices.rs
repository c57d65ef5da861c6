//! Content blobs for system notifications: compact object texts with keys
//! in alphabetical order, carried opaquely by the mailbox.

use vstd::prelude::*;

use crate::text::{dec_of, dec_u128, dec_u64};
use crate::types::PurchaseOrderStatus;

verus! {

/// The display label of a purchase-order status.
pub open spec fn status_label(s: PurchaseOrderStatus) -> Seq<char> {
    match s {
        PurchaseOrderStatus::Draft => "Draft"@,
        PurchaseOrderStatus::Submitted => "Submitted"@,
        PurchaseOrderStatus::Accepted => "Accepted"@,
        PurchaseOrderStatus::Rejected => "Rejected"@,
        PurchaseOrderStatus::InProgress => "InProgress"@,
        PurchaseOrderStatus::Delivered => "Delivered"@,
        PurchaseOrderStatus::Completed => "Completed"@,
        PurchaseOrderStatus::Cancelled => "Cancelled"@,
    }
}

pub fn status_label_str(s: PurchaseOrderStatus) -> (r: &'static str)
    ensures
        r@ == status_label(s),
{
    match s {
        PurchaseOrderStatus::Draft => "Draft",
        PurchaseOrderStatus::Submitted => "Submitted",
        PurchaseOrderStatus::Accepted => "Accepted",
        PurchaseOrderStatus::Rejected => "Rejected",
        PurchaseOrderStatus::InProgress => "InProgress",
        PurchaseOrderStatus::Delivered => "Delivered",
        PurchaseOrderStatus::Completed => "Completed",
        PurchaseOrderStatus::Cancelled => "Cancelled",
    }
}

/// An optional string rendered as a quoted value or a null marker.
pub open spec fn opt_field(v: Option<Seq<char>>) -> Seq<char> {
    match v {
        Some(s) => "\""@ + s + "\""@,
        None => "null"@,
    }
}

fn opt_field_string(v: &Option<String>) -> (r: String)
    ensures
        r@ == opt_field(crate::types::opt_view(*v)),
{
    match v {
        Some(s) => {
            let mut r = String::from_str("\"");
            r.append(s.as_str());
            r.append("\"");
            proof {
                assert(r@ =~= opt_field(Some(s@)));
            }
            r
        },
        None => String::from_str("null"),
    }
}

/// Notification sent to the seller when a purchase order is created.
pub open spec fn po_created_notice(
    po_id: Seq<char>,
    buyer: Seq<char>,
    total: nat,
    items_count: nat,
    delivery_terms: Seq<char>,
) -> Seq<char> {
    "{\"buyer\":\""@ + buyer + "\",\"delivery_terms\":\""@ + delivery_terms
        + "\",\"items_count\":"@ + dec_of(items_count) + ",\"po_id\":\""@ + po_id
        + "\",\"total_amount\":\""@ + dec_of(total) + "\"}"@
}

pub fn po_created_notice_string(
    po_id: &String,
    buyer: &String,
    total: u128,
    items_count: u64,
    delivery_terms: &String,
) -> (r: String)
    ensures
        r@ == po_created_notice(po_id@, buyer@, total as nat, items_count as nat, delivery_terms@),
{
    let mut r = String::from_str("{\"buyer\":\"");
    r.append(buyer.as_str());
    r.append("\",\"delivery_terms\":\"");
    r.append(delivery_terms.as_str());
    r.append("\",\"items_count\":");
    let c = dec_u64(items_count);
    r.append(c.as_str());
    r.append(",\"po_id\":\"");
    r.append(po_id.as_str());
    r.append("\",\"total_amount\":\"");
    let t = dec_u128(total);
    r.append(t.as_str());
    r.append("\"}");
    proof {
        assert(r@ =~= po_created_notice(
            po_id@,
            buyer@,
            total as nat,
            items_count as nat,
            delivery_terms@,
        ));
    }
    r
}

/// Notification sent to the counterparty when a purchase order changes
/// status.
pub open spec fn po_status_notice(
    po_id: Seq<char>,
    new_status: PurchaseOrderStatus,
    updated_by: Seq<char>,
    notes: Option<Seq<char>>,
) -> Seq<char> {
    "{\"new_status\":\""@ + status_label(new_status) + "\",\"notes\":"@ + opt_field(notes)
        + ",\"po_id\":\""@ + po_id + "\",\"updated_by\":\""@ + updated_by + "\"}"@
}

pub fn po_status_notice_string(
    po_id: &String,
    new_status: PurchaseOrderStatus,
    updated_by: &String,
    notes: &Option<String>,
) -> (r: String)
    ensures
        r@ == po_status_notice(po_id@, new_status, updated_by@, crate::types::opt_view(*notes)),
{
    let mut r = String::from_str("{\"new_status\":\"");
    r.append(status_label_str(new_status));
    r.append("\",\"notes\":");
    let nf = opt_field_string(notes);
    r.append(nf.as_str());
    r.append(",\"po_id\":\"");
    r.append(po_id.as_str());
    r.append("\",\"updated_by\":\"");
    r.append(updated_by.as_str());
    r.append("\"}");
    proof {
        assert(r@ =~= po_status_notice(
            po_id@,
            new_status,
            updated_by@,
            crate::types::opt_view(*notes),
        ));
    }
    r
}

/// Notification sent to the buyer when an invoice is issued.
pub open spec fn invoice_notice(
    invoice_id: Seq<char>,
    po_id: Seq<char>,
    seller: Seq<char>,
    total: nat,
    due_date: nat,
) -> Seq<char> {
    "{\"due_date\":"@ + dec_of(due_date) + ",\"invoice_id\":\""@ + invoice_id + "\",\"po_id\":\""@
        + po_id + "\",\"seller\":\""@ + seller + "\",\"total_amount\":\""@ + dec_of(total)
        + "\"}"@
}

pub fn invoice_notice_string(
    invoice_id: &String,
    po_id: &String,
    seller: &String,
    total: u128,
    due_date: u64,
) -> (r: String)
    ensures
        r@ == invoice_notice(invoice_id@, po_id@, seller@, total as nat, due_date as nat),
{
    let mut r = String::from_str("{\"due_date\":");
    let d = dec_u64(due_date);
    r.append(d.as_str());
    r.append(",\"invoice_id\":\"");
    r.append(invoice_id.as_str());
    r.append("\",\"po_id\":\"");
    r.append(po_id.as_str());
    r.append("\",\"seller\":\"");
    r.append(seller.as_str());
    r.append("\",\"total_amount\":\"");
    let t = dec_u128(total);
    r.append(t.as_str());
    r.append("\"}");
    proof {
        assert(r@ =~= invoice_notice(invoice_id@, po_id@, seller@, total as nat, due_date as nat));
    }
    r
}

/// Notification sent to the seller when an invoice is paid.
pub open spec fn payment_notice(
    invoice_id: Seq<char>,
    po_id: Seq<char>,
    payer: Seq<char>,
    amount: nat,
    payment_reference: Option<Seq<char>>,
) -> Seq<char> {
    "{\"amount\":\""@ + dec_of(amount) + "\",\"invoice_id\":\""@ + invoice_id + "\",\"payer\":\""@
        + payer + "\",\"payment_reference\":"@ + opt_field(payment_reference) + ",\"po_id\":\""@
        + po_id + "\"}"@
}

pub fn payment_notice_string(
    invoice_id: &String,
    po_id: &String,
    payer: &String,
    amount: u128,
    payment_reference: &Option<String>,
) -> (r: String)
    ensures
        r@ == payment_notice(
            invoice_id@,
            po_id@,
            payer@,
            amount as nat,
            crate::types::opt_view(*payment_reference),
        ),
{
    let mut r = String::from_str("{\"amount\":\"");
    let a = dec_u128(amount);
    r.append(a.as_str());
    r.append("\",\"invoice_id\":\"");
    r.append(invoice_id.as_str());
    r.append("\",\"payer\":\"");
    r.append(payer.as_str());
    r.append("\",\"payment_reference\":");
    let pf = opt_field_string(payment_reference);
    r.append(pf.as_str());
    r.append(",\"po_id\":\"");
    r.append(po_id.as_str());
    r.append("\"}");
    proof {
        assert(r@ =~= payment_notice(
            invoice_id@,
            po_id@,
            payer@,
            amount as nat,
            crate::types::opt_view(*payment_reference),
        ));
    }
    r
}

/// Notification sent to the seller when the buyer confirms receipt.
pub open spec fn receipt_notice(
    po_id: Seq<char>,
    confirmed_by: Seq<char>,
    confirmation_time: nat,
) -> Seq<char> {
    "{\"confirmation_time\":"@ + dec_of(confirmation_time) + ",\"confirmed_by\":\""@
        + confirmed_by + "\",\"po_id\":\""@ + po_id + "\"}"@
}

pub fn receipt_notice_string(po_id: &String, confirmed_by: &String, confirmation_time: u64) -> (r:
    String)
    ensures
        r@ == receipt_notice(po_id@, confirmed_by@, confirmation_time as nat),
{
    let mut r = String::from_str("{\"confirmation_time\":");
    let t = dec_u64(confirmation_time);
    r.append(t.as_str());
    r.append(",\"confirmed_by\":\"");
    r.append(confirmed_by.as_str());
    r.append("\",\"po_id\":\"");
    r.append(po_id.as_str());
    r.append("\"}");
    proof {
        assert(r@ =~= receipt_notice(po_id@, confirmed_by@, confirmation_time as nat));
    }
    r
}

/// Refund request sent to the counterparty of a paid invoice.
pub open spec fn refund_notice(
    invoice_id: Seq<char>,
    requested_by: Seq<char>,
    amount: nat,
    reason: Seq<char>,
    original_payment: nat,
) -> Seq<char> {
    "{\"refund_request\":{\"amount\":\""@ + dec_of(amount) + "\",\"invoice_id\":\""@ + invoice_id
        + "\",\"original_payment\":\""@ + dec_of(original_payment) + "\",\"reason\":\""@ + reason
        + "\",\"requested_by\":\""@ + requested_by + "\"}}"@
}

pub fn refund_notice_string(
    invoice_id: &String,
    requested_by: &String,
    amount: u128,
    reason: &String,
    original_payment: u128,
) -> (r: String)
    ensures
        r@ == refund_notice(
            invoice_id@,
            requested_by@,
            amount as nat,
            reason@,
            original_payment as nat,
        ),
{
    let mut r = String::from_str("{\"refund_request\":{\"amount\":\"");
    let a = dec_u128(amount);
    r.append(a.as_str());
    r.append("\",\"invoice_id\":\"");
    r.append(invoice_id.as_str());
    r.append("\",\"original_payment\":\"");
    let o = dec_u128(original_payment);
    r.append(o.as_str());
    r.append("\",\"reason\":\"");
    r.append(reason.as_str());
    r.append("\",\"requested_by\":\"");
    r.append(requested_by.as_str());
    r.append("\"}}");
    proof {
        assert(r@ =~= refund_notice(
            invoice_id@,
            requested_by@,
            amount as nat,
            reason@,
            original_payment as nat,
        ));
    }
    r
}

} // verus!
