//! The persisted entities and the whole-registry state, with its
//! well-formedness invariant.

use vstd::prelude::*;

use crate::ids::{agent_id_text, invoice_id_text, message_id_text, po_id_text, service_id_text};
use crate::store::StrMap;
use crate::types::{
    clone_opt_string, clone_strings, opt_view, views_of, Coin, CoinV, InvoiceLineItem,
    InvoiceLineItemV, ItemReceipt, ItemReceiptV, MessageType, MessageTypeV, PaymentTerms,
    PurchaseOrderItem, PurchaseOrderItemV, PurchaseOrderStatus, ServiceStatus, TransactionType,
};

verus! {

/// The process-wide configuration and counter record.
#[derive(Debug)]
pub struct Config {
    pub admin: String,
    pub stablecoin_denom: String,
    pub min_agent_balance: u128,
    pub service_fee_percentage: u64,
    pub next_agent_id: u64,
    pub next_service_id: u64,
    pub next_tx_id: u64,
}

pub ghost struct ConfigV {
    pub admin: Seq<char>,
    pub stablecoin_denom: Seq<char>,
    pub min_agent_balance: u128,
    pub service_fee_percentage: u64,
    pub next_agent_id: u64,
    pub next_service_id: u64,
    pub next_tx_id: u64,
}

impl View for Config {
    type V = ConfigV;

    open spec fn view(&self) -> ConfigV {
        ConfigV {
            admin: self.admin@,
            stablecoin_denom: self.stablecoin_denom@,
            min_agent_balance: self.min_agent_balance,
            service_fee_percentage: self.service_fee_percentage,
            next_agent_id: self.next_agent_id,
            next_service_id: self.next_service_id,
            next_tx_id: self.next_tx_id,
        }
    }
}

impl Config {
    pub fn dup(&self) -> (r: Config)
        ensures
            r@ == self@,
    {
        Config {
            admin: self.admin.clone(),
            stablecoin_denom: self.stablecoin_denom.clone(),
            min_agent_balance: self.min_agent_balance,
            service_fee_percentage: self.service_fee_percentage,
            next_agent_id: self.next_agent_id,
            next_service_id: self.next_service_id,
            next_tx_id: self.next_tx_id,
        }
    }
}

/// A registered economic actor.
#[derive(Debug)]
pub struct Agent {
    pub agent_id: String,
    pub owner: String,
    pub name: String,
    pub description: String,
    pub capabilities: Vec<String>,
    pub service_endpoints: Vec<String>,
    pub wallet_address: String,
    pub is_active: bool,
    pub created_at: u64,
    pub last_active: u64,
    pub total_services_provided: u64,
    pub total_services_requested: u64,
    pub reputation_score: u64,
}

pub ghost struct AgentV {
    pub agent_id: Seq<char>,
    pub owner: Seq<char>,
    pub name: Seq<char>,
    pub description: Seq<char>,
    pub capabilities: Seq<Seq<char>>,
    pub service_endpoints: Seq<Seq<char>>,
    pub wallet_address: Seq<char>,
    pub is_active: bool,
    pub created_at: u64,
    pub last_active: u64,
    pub total_services_provided: u64,
    pub total_services_requested: u64,
    pub reputation_score: u64,
}

impl View for Agent {
    type V = AgentV;

    open spec fn view(&self) -> AgentV {
        AgentV {
            agent_id: self.agent_id@,
            owner: self.owner@,
            name: self.name@,
            description: self.description@,
            capabilities: views_of(self.capabilities@),
            service_endpoints: views_of(self.service_endpoints@),
            wallet_address: self.wallet_address@,
            is_active: self.is_active,
            created_at: self.created_at,
            last_active: self.last_active,
            total_services_provided: self.total_services_provided,
            total_services_requested: self.total_services_requested,
            reputation_score: self.reputation_score,
        }
    }
}

impl Agent {
    pub fn dup(&self) -> (r: Agent)
        ensures
            r@ == self@,
    {
        Agent {
            agent_id: self.agent_id.clone(),
            owner: self.owner.clone(),
            name: self.name.clone(),
            description: self.description.clone(),
            capabilities: clone_strings(&self.capabilities),
            service_endpoints: clone_strings(&self.service_endpoints),
            wallet_address: self.wallet_address.clone(),
            is_active: self.is_active,
            created_at: self.created_at,
            last_active: self.last_active,
            total_services_provided: self.total_services_provided,
            total_services_requested: self.total_services_requested,
            reputation_score: self.reputation_score,
        }
    }
}

/// Per-agent balances in the settlement asset.  Funds marked locked stay
/// counted in the balance until consumed or released.
#[derive(Clone, Copy, PartialEq, Eq, Structural, Debug)]
pub struct AgentWallet {
    pub balance: u128,
    pub locked_balance: u128,
}

/// The escrow invariant of a single wallet.
pub open spec fn wallet_ok(w: AgentWallet) -> bool {
    w.locked_balance <= w.balance
}

/// A service request with its escrowed payment.
#[derive(Debug)]
pub struct Service {
    pub service_id: String,
    pub requester_agent_id: String,
    pub provider_agent_id: String,
    pub service_type: String,
    pub payment: Coin,
    pub status: ServiceStatus,
    pub parameters: String,
    pub result: Option<String>,
    pub created_at: u64,
    pub completed_at: Option<u64>,
    pub escrow_released: bool,
}

pub ghost struct ServiceV {
    pub service_id: Seq<char>,
    pub requester_agent_id: Seq<char>,
    pub provider_agent_id: Seq<char>,
    pub service_type: Seq<char>,
    pub payment: CoinV,
    pub status: ServiceStatus,
    pub parameters: Seq<char>,
    pub result: Option<Seq<char>>,
    pub created_at: u64,
    pub completed_at: Option<u64>,
    pub escrow_released: bool,
}

impl View for Service {
    type V = ServiceV;

    open spec fn view(&self) -> ServiceV {
        ServiceV {
            service_id: self.service_id@,
            requester_agent_id: self.requester_agent_id@,
            provider_agent_id: self.provider_agent_id@,
            service_type: self.service_type@,
            payment: self.payment@,
            status: self.status,
            parameters: self.parameters@,
            result: opt_view(self.result),
            created_at: self.created_at,
            completed_at: self.completed_at,
            escrow_released: self.escrow_released,
        }
    }
}

impl Service {
    pub fn dup(&self) -> (r: Service)
        ensures
            r@ == self@,
    {
        Service {
            service_id: self.service_id.clone(),
            requester_agent_id: self.requester_agent_id.clone(),
            provider_agent_id: self.provider_agent_id.clone(),
            service_type: self.service_type.clone(),
            payment: self.payment.dup(),
            status: self.status,
            parameters: self.parameters.clone(),
            result: clone_opt_string(&self.result),
            created_at: self.created_at,
            completed_at: self.completed_at,
            escrow_released: self.escrow_released,
        }
    }
}

/// One immutable entry of the append-only transaction log.
#[derive(Debug)]
pub struct TransactionRecord {
    pub tx_id: u64,
    pub tx_type: TransactionType,
    pub from: Option<String>,
    pub to: Option<String>,
    pub amount: Coin,
    pub memo: Option<String>,
    pub timestamp: u64,
}

pub ghost struct TransactionRecordV {
    pub tx_id: u64,
    pub tx_type: TransactionType,
    pub from: Option<Seq<char>>,
    pub to: Option<Seq<char>>,
    pub amount: CoinV,
    pub memo: Option<Seq<char>>,
    pub timestamp: u64,
}

impl View for TransactionRecord {
    type V = TransactionRecordV;

    open spec fn view(&self) -> TransactionRecordV {
        TransactionRecordV {
            tx_id: self.tx_id,
            tx_type: self.tx_type,
            from: opt_view(self.from),
            to: opt_view(self.to),
            amount: self.amount@,
            memo: opt_view(self.memo),
            timestamp: self.timestamp,
        }
    }
}

/// A mailbox message between two agents.
#[derive(Debug)]
pub struct AgentMessage {
    pub message_id: String,
    pub from_agent_id: String,
    pub to_agent_id: String,
    pub message_type: MessageType,
    pub content: String,
    pub requires_response: bool,
    pub timestamp: u64,
    pub response: Option<MessageResponse>,
}

pub ghost struct AgentMessageV {
    pub message_id: Seq<char>,
    pub from_agent_id: Seq<char>,
    pub to_agent_id: Seq<char>,
    pub message_type: MessageTypeV,
    pub content: Seq<char>,
    pub requires_response: bool,
    pub timestamp: u64,
    pub response: Option<MessageResponseV>,
}

impl View for AgentMessage {
    type V = AgentMessageV;

    open spec fn view(&self) -> AgentMessageV {
        AgentMessageV {
            message_id: self.message_id@,
            from_agent_id: self.from_agent_id@,
            to_agent_id: self.to_agent_id@,
            message_type: self.message_type@,
            content: self.content@,
            requires_response: self.requires_response,
            timestamp: self.timestamp,
            response: match self.response {
                Some(ref r) => Some(r@),
                None => None,
            },
        }
    }
}

impl AgentMessage {
    pub fn dup(&self) -> (r: AgentMessage)
        ensures
            r@ == self@,
    {
        AgentMessage {
            message_id: self.message_id.clone(),
            from_agent_id: self.from_agent_id.clone(),
            to_agent_id: self.to_agent_id.clone(),
            message_type: self.message_type.dup(),
            content: self.content.clone(),
            requires_response: self.requires_response,
            timestamp: self.timestamp,
            response: match &self.response {
                Some(r) => Some(r.dup()),
                None => None,
            },
        }
    }
}

/// The single response a message may receive.
#[derive(Debug)]
pub struct MessageResponse {
    pub response_content: String,
    pub responded_at: u64,
}

pub ghost struct MessageResponseV {
    pub response_content: Seq<char>,
    pub responded_at: u64,
}

impl View for MessageResponse {
    type V = MessageResponseV;

    open spec fn view(&self) -> MessageResponseV {
        MessageResponseV {
            response_content: self.response_content@,
            responded_at: self.responded_at,
        }
    }
}

impl MessageResponse {
    pub fn dup(&self) -> (r: MessageResponse)
        ensures
            r@ == self@,
    {
        MessageResponse {
            response_content: self.response_content.clone(),
            responded_at: self.responded_at,
        }
    }
}

/// A buyer-seller trade agreement preceding invoicing.
#[derive(Debug)]
pub struct PurchaseOrder {
    pub po_id: String,
    pub buyer_agent_id: String,
    pub seller_agent_id: String,
    pub items: Vec<PurchaseOrderItem>,
    pub total_amount: u128,
    pub status: PurchaseOrderStatus,
    pub created_at: u64,
    pub updated_at: u64,
    pub delivery_terms: String,
    pub payment_terms: PaymentTerms,
    pub invoice_id: Option<String>,
    pub metadata: Option<String>,
}

pub ghost struct PurchaseOrderV {
    pub po_id: Seq<char>,
    pub buyer_agent_id: Seq<char>,
    pub seller_agent_id: Seq<char>,
    pub items: Seq<PurchaseOrderItemV>,
    pub total_amount: u128,
    pub status: PurchaseOrderStatus,
    pub created_at: u64,
    pub updated_at: u64,
    pub delivery_terms: Seq<char>,
    pub payment_terms: PaymentTerms,
    pub invoice_id: Option<Seq<char>>,
    pub metadata: Option<Seq<char>>,
}

/// The views of a sequence of purchase-order items.
pub open spec fn po_item_views(s: Seq<PurchaseOrderItem>) -> Seq<PurchaseOrderItemV> {
    s.map_values(|x: PurchaseOrderItem| x@)
}

impl View for PurchaseOrder {
    type V = PurchaseOrderV;

    open spec fn view(&self) -> PurchaseOrderV {
        PurchaseOrderV {
            po_id: self.po_id@,
            buyer_agent_id: self.buyer_agent_id@,
            seller_agent_id: self.seller_agent_id@,
            items: po_item_views(self.items@),
            total_amount: self.total_amount,
            status: self.status,
            created_at: self.created_at,
            updated_at: self.updated_at,
            delivery_terms: self.delivery_terms@,
            payment_terms: self.payment_terms,
            invoice_id: opt_view(self.invoice_id),
            metadata: opt_view(self.metadata),
        }
    }
}

/// Clone a vector of purchase-order items, preserving every field.
pub fn clone_po_items(v: &Vec<PurchaseOrderItem>) -> (r: Vec<PurchaseOrderItem>)
    ensures
        po_item_views(r@) == po_item_views(v@),
{
    let mut r: Vec<PurchaseOrderItem> = Vec::new();
    let n = v.len();
    let mut i: usize = 0;
    while i < n
        invariant
            i <= n,
            n == v@.len(),
            r@.len() == i,
            forall|j: int| 0 <= j < i ==> #[trigger] r@[j]@ == v@[j]@,
        decreases n - i,
    {
        let it = &v[i];
        r.push(PurchaseOrderItem {
            item_id: it.item_id.clone(),
            description: it.description.clone(),
            quantity: it.quantity,
            unit_price: it.unit_price,
            unit: it.unit.clone(),
        });
        i = i + 1;
    }
    proof {
        assert(po_item_views(r@) =~= po_item_views(v@));
    }
    r
}

impl PurchaseOrder {
    pub fn dup(&self) -> (r: PurchaseOrder)
        ensures
            r@ == self@,
    {
        PurchaseOrder {
            po_id: self.po_id.clone(),
            buyer_agent_id: self.buyer_agent_id.clone(),
            seller_agent_id: self.seller_agent_id.clone(),
            items: clone_po_items(&self.items),
            total_amount: self.total_amount,
            status: self.status,
            created_at: self.created_at,
            updated_at: self.updated_at,
            delivery_terms: self.delivery_terms.clone(),
            payment_terms: self.payment_terms,
            invoice_id: clone_opt_string(&self.invoice_id),
            metadata: clone_opt_string(&self.metadata),
        }
    }
}

/// A bill a seller issues against a purchase order.
#[derive(Debug)]
pub struct Invoice {
    pub invoice_id: String,
    pub po_id: String,
    pub seller_agent_id: String,
    pub buyer_agent_id: String,
    pub line_items: Vec<InvoiceLineItem>,
    pub subtotal: u128,
    pub tax_rate: Option<u64>,
    pub tax_amount: u128,
    pub discount_rate: Option<u64>,
    pub discount_amount: u128,
    pub total_amount: u128,
    pub paid: bool,
    pub paid_at: Option<u64>,
    pub created_at: u64,
    pub due_date: u64,
    pub payment_reference: Option<String>,
    pub metadata: Option<String>,
}

pub ghost struct InvoiceV {
    pub invoice_id: Seq<char>,
    pub po_id: Seq<char>,
    pub seller_agent_id: Seq<char>,
    pub buyer_agent_id: Seq<char>,
    pub line_items: Seq<InvoiceLineItemV>,
    pub subtotal: u128,
    pub tax_rate: Option<u64>,
    pub tax_amount: u128,
    pub discount_rate: Option<u64>,
    pub discount_amount: u128,
    pub total_amount: u128,
    pub paid: bool,
    pub paid_at: Option<u64>,
    pub created_at: u64,
    pub due_date: u64,
    pub payment_reference: Option<Seq<char>>,
    pub metadata: Option<Seq<char>>,
}

/// The views of a sequence of invoice lines.
pub open spec fn line_item_views(s: Seq<InvoiceLineItem>) -> Seq<InvoiceLineItemV> {
    s.map_values(|x: InvoiceLineItem| x@)
}

impl View for Invoice {
    type V = InvoiceV;

    open spec fn view(&self) -> InvoiceV {
        InvoiceV {
            invoice_id: self.invoice_id@,
            po_id: self.po_id@,
            seller_agent_id: self.seller_agent_id@,
            buyer_agent_id: self.buyer_agent_id@,
            line_items: line_item_views(self.line_items@),
            subtotal: self.subtotal,
            tax_rate: self.tax_rate,
            tax_amount: self.tax_amount,
            discount_rate: self.discount_rate,
            discount_amount: self.discount_amount,
            total_amount: self.total_amount,
            paid: self.paid,
            paid_at: self.paid_at,
            created_at: self.created_at,
            due_date: self.due_date,
            payment_reference: opt_view(self.payment_reference),
            metadata: opt_view(self.metadata),
        }
    }
}

/// Clone a vector of invoice lines, preserving every field.
pub fn clone_line_items(v: &Vec<InvoiceLineItem>) -> (r: Vec<InvoiceLineItem>)
    ensures
        line_item_views(r@) == line_item_views(v@),
{
    let mut r: Vec<InvoiceLineItem> = Vec::new();
    let n = v.len();
    let mut i: usize = 0;
    while i < n
        invariant
            i <= n,
            n == v@.len(),
            r@.len() == i,
            forall|j: int| 0 <= j < i ==> #[trigger] r@[j]@ == v@[j]@,
        decreases n - i,
    {
        let it = &v[i];
        r.push(InvoiceLineItem {
            description: it.description.clone(),
            quantity: it.quantity,
            unit_price: it.unit_price,
            po_item_id: clone_opt_string(&it.po_item_id),
        });
        i = i + 1;
    }
    proof {
        assert(line_item_views(r@) =~= line_item_views(v@));
    }
    r
}

impl Invoice {
    pub fn dup(&self) -> (r: Invoice)
        ensures
            r@ == self@,
    {
        Invoice {
            invoice_id: self.invoice_id.clone(),
            po_id: self.po_id.clone(),
            seller_agent_id: self.seller_agent_id.clone(),
            buyer_agent_id: self.buyer_agent_id.clone(),
            line_items: clone_line_items(&self.line_items),
            subtotal: self.subtotal,
            tax_rate: self.tax_rate,
            tax_amount: self.tax_amount,
            discount_rate: self.discount_rate,
            discount_amount: self.discount_amount,
            total_amount: self.total_amount,
            paid: self.paid,
            paid_at: self.paid_at,
            created_at: self.created_at,
            due_date: self.due_date,
            payment_reference: clone_opt_string(&self.payment_reference),
            metadata: clone_opt_string(&self.metadata),
        }
    }
}

/// A delivery confirmation appended by the buyer; several may exist per
/// purchase order.
#[derive(Debug)]
pub struct Receipt {
    pub po_id: String,
    pub confirmed_by: String,
    pub items_received: Vec<ItemReceipt>,
    pub confirmed_at: u64,
    pub notes: Option<String>,
}

pub ghost struct ReceiptV {
    pub po_id: Seq<char>,
    pub confirmed_by: Seq<char>,
    pub items_received: Seq<ItemReceiptV>,
    pub confirmed_at: u64,
    pub notes: Option<Seq<char>>,
}

/// The views of a sequence of received items.
pub open spec fn item_receipt_views(s: Seq<ItemReceipt>) -> Seq<ItemReceiptV> {
    s.map_values(|x: ItemReceipt| x@)
}

impl View for Receipt {
    type V = ReceiptV;

    open spec fn view(&self) -> ReceiptV {
        ReceiptV {
            po_id: self.po_id@,
            confirmed_by: self.confirmed_by@,
            items_received: item_receipt_views(self.items_received@),
            confirmed_at: self.confirmed_at,
            notes: opt_view(self.notes),
        }
    }
}

impl Receipt {
    pub fn dup(&self) -> (r: Receipt)
        ensures
            r@ == self@,
    {
        let mut items: Vec<ItemReceipt> = Vec::new();
        let n = self.items_received.len();
        let mut i: usize = 0;
        while i < n
            invariant
                i <= n,
                n == self.items_received@.len(),
                items@.len() == i,
                forall|j: int| 0 <= j < i ==> #[trigger] items@[j]@ == self.items_received@[j]@,
            decreases n - i,
        {
            let it = &self.items_received[i];
            items.push(ItemReceipt {
                po_item_id: it.po_item_id.clone(),
                quantity_received: it.quantity_received,
                condition: it.condition,
                notes: clone_opt_string(&it.notes),
            });
            i = i + 1;
        }
        let r = Receipt {
            po_id: self.po_id.clone(),
            confirmed_by: self.confirmed_by.clone(),
            items_received: items,
            confirmed_at: self.confirmed_at,
            notes: clone_opt_string(&self.notes),
        };
        proof {
            assert(item_receipt_views(r.items_received@) =~= item_receipt_views(
                self.items_received@,
            ));
        }
        r
    }
}

/// Clone a list of receipts, preserving every field.
pub fn clone_receipts(v: &Vec<Receipt>) -> (r: Vec<Receipt>)
    ensures
        receipt_views(r@) == receipt_views(v@),
{
    let mut r: Vec<Receipt> = Vec::new();
    let n = v.len();
    let mut i: usize = 0;
    while i < n
        invariant
            i <= n,
            n == v@.len(),
            r@.len() == i,
            forall|j: int| 0 <= j < i ==> #[trigger] r@[j]@ == v@[j]@,
        decreases n - i,
    {
        r.push(v[i].dup());
        i = i + 1;
    }
    proof {
        assert(receipt_views(r@) =~= receipt_views(v@));
    }
    r
}

/// The views of a sequence of receipts.
pub open spec fn receipt_views(s: Seq<Receipt>) -> Seq<ReceiptV> {
    s.map_values(|x: Receipt| x@)
}

/// Derived financial position of an agent, recomputable by reconciliation.
#[derive(Debug)]
pub struct AgentFinancials {
    pub agent_id: String,
    pub total_sales: u128,
    pub total_purchases: u128,
    pub outstanding_receivables: u128,
    pub outstanding_payables: u128,
    pub completed_orders: u64,
    pub pending_orders: u64,
    pub last_updated: u64,
}

pub ghost struct AgentFinancialsV {
    pub agent_id: Seq<char>,
    pub total_sales: u128,
    pub total_purchases: u128,
    pub outstanding_receivables: u128,
    pub outstanding_payables: u128,
    pub completed_orders: u64,
    pub pending_orders: u64,
    pub last_updated: u64,
}

impl View for AgentFinancials {
    type V = AgentFinancialsV;

    open spec fn view(&self) -> AgentFinancialsV {
        AgentFinancialsV {
            agent_id: self.agent_id@,
            total_sales: self.total_sales,
            total_purchases: self.total_purchases,
            outstanding_receivables: self.outstanding_receivables,
            outstanding_payables: self.outstanding_payables,
            completed_orders: self.completed_orders,
            pending_orders: self.pending_orders,
            last_updated: self.last_updated,
        }
    }
}

/// A reputation change event.
#[derive(Debug)]
pub struct ReputationEvent {
    pub agent_id: String,
    pub event_type: ReputationEventType,
    pub score_change: i32,
    pub reason: String,
    pub timestamp: u64,
}

#[derive(Clone, Copy, PartialEq, Eq, Structural, Debug)]
pub enum ReputationEventType {
    ServiceCompleted,
    ServiceFailed,
    ServiceRefunded,
    PositiveFeedback,
    NegativeFeedback,
}

/// A registered service-type description.
#[derive(Debug)]
pub struct ServiceTypeInfo {
    pub name: String,
    pub description: String,
    pub min_payment: u128,
    pub max_duration: u64,
    pub required_capabilities: Vec<String>,
}

/// A withdrawal queued behind a delay.
#[derive(Debug)]
pub struct PendingWithdrawal {
    pub agent_id: String,
    pub amount: Coin,
    pub recipient: String,
    pub requested_at: u64,
    pub execute_at: u64,
}

/// Ascending, in-range transaction index of one agent.
pub open spec fn tx_list_ok(l: Seq<u64>, next_tx_id: u64) -> bool {
    &&& forall|i: int| 0 <= i < l.len() ==> 1 <= #[trigger] l[i] < next_tx_id
    &&& forall|i: int, j: int| 0 <= i < j < l.len() ==> l[i] < l[j]
}

/// The sum of all wallet balances in storage order.
pub open spec fn sum_balances(s: Seq<AgentWallet>) -> int
    decreases s.len(),
{
    if s.len() == 0 {
        0
    } else {
        sum_balances(s.drop_last()) + s.last().balance
    }
}

pub proof fn lemma_sum_insert(s: Seq<AgentWallet>, i: int, w: AgentWallet)
    requires
        0 <= i <= s.len(),
    ensures
        sum_balances(s.insert(i, w)) == sum_balances(s) + w.balance,
    decreases s.len(),
{
    s.insert_ensures(i, w);
    let s2 = s.insert(i, w);
    if i == s.len() {
        assert(s2 =~= s.push(w));
        assert(s.push(w).drop_last() =~= s);
    } else {
        assert(s2.last() == s.last());
        assert(s2.drop_last() =~= s.drop_last().insert(i, w)) by {
            s.drop_last().insert_ensures(i, w);
        }
        lemma_sum_insert(s.drop_last(), i, w);
    }
}

pub proof fn lemma_sum_update(s: Seq<AgentWallet>, i: int, w: AgentWallet)
    requires
        0 <= i < s.len(),
    ensures
        sum_balances(s.update(i, w)) == sum_balances(s) - s[i].balance + w.balance,
    decreases s.len(),
{
    let s2 = s.update(i, w);
    if i == s.len() - 1 {
        assert(s2.drop_last() =~= s.drop_last());
        assert(s2.last() == w);
    } else {
        assert(s2.last() == s.last());
        assert(s2.drop_last() =~= s.drop_last().update(i, w));
        assert(s.drop_last()[i] == s[i]);
        lemma_sum_update(s.drop_last(), i, w);
    }
}

/// The agent directory, owner index, and agent-id counter are unchanged.
pub open spec fn same_agents(a: State, b: State) -> bool {
    &&& a.agents == b.agents
    &&& a.address_to_id == b.address_to_id
    &&& a.config.next_agent_id == b.config.next_agent_id
}

/// The wallet ledger is unchanged.
pub open spec fn same_wallets(a: State, b: State) -> bool {
    a.wallets == b.wallets
}

/// The service table and its counter are unchanged.
pub open spec fn same_services(a: State, b: State) -> bool {
    &&& a.services == b.services
    &&& a.config.next_service_id == b.config.next_service_id
}

/// The transaction log and its indices are unchanged.
pub open spec fn same_ledger(a: State, b: State) -> bool {
    &&& a.transactions == b.transactions
    &&& a.agent_transactions == b.agent_transactions
    &&& a.config.next_tx_id == b.config.next_tx_id
}

/// The mailbox store is unchanged.
pub open spec fn same_messaging(a: State, b: State) -> bool {
    &&& a.messages == b.messages
    &&& a.message_counter == b.message_counter
    &&& a.inboxes == b.inboxes
    &&& a.outboxes == b.outboxes
}

/// Purchase orders, invoices, receipts, and financials are unchanged.
pub open spec fn same_procurement(a: State, b: State) -> bool {
    &&& a.purchase_orders == b.purchase_orders
    &&& a.po_counter == b.po_counter
    &&& a.buyer_pos == b.buyer_pos
    &&& a.seller_pos == b.seller_pos
    &&& a.invoices == b.invoices
    &&& a.invoice_counter == b.invoice_counter
    &&& a.buyer_invoices == b.buyer_invoices
    &&& a.seller_invoices == b.seller_invoices
    &&& a.receipts == b.receipts
    &&& a.financials == b.financials
}

/// The owner index and the agent-id counter are unchanged.
pub open spec fn same_directory(a: State, b: State) -> bool {
    &&& a.address_to_id == b.address_to_id
    &&& a.config.next_agent_id == b.config.next_agent_id
}

/// The governance parameters are unchanged.
pub open spec fn same_governance(a: State, b: State) -> bool {
    &&& a.config.admin@ == b.config.admin@
    &&& a.config.stablecoin_denom@ == b.config.stablecoin_denom@
    &&& a.config.min_agent_balance == b.config.min_agent_balance
    &&& a.config.service_fee_percentage == b.config.service_fee_percentage
}

/// The whole registry: configuration, entities, indices, and counters.
pub struct State {
    pub config: Config,
    pub agents: StrMap<Agent>,
    pub address_to_id: StrMap<String>,
    pub wallets: StrMap<AgentWallet>,
    pub services: StrMap<Service>,
    pub transactions: Vec<TransactionRecord>,
    pub agent_transactions: StrMap<Vec<u64>>,
    pub messages: StrMap<AgentMessage>,
    pub message_counter: u64,
    pub inboxes: StrMap<Vec<String>>,
    pub outboxes: StrMap<Vec<String>>,
    pub purchase_orders: StrMap<PurchaseOrder>,
    pub po_counter: u64,
    pub buyer_pos: StrMap<Vec<String>>,
    pub seller_pos: StrMap<Vec<String>>,
    pub invoices: StrMap<Invoice>,
    pub invoice_counter: u64,
    pub buyer_invoices: StrMap<Vec<String>>,
    pub seller_invoices: StrMap<Vec<String>>,
    pub receipts: StrMap<Vec<Receipt>>,
    pub financials: StrMap<AgentFinancials>,
}

impl State {
    /// The sum of every agent's balance: the money the registry holds.
    pub open spec fn total_funds(self) -> int {
        sum_balances(self.wallets.val_seq())
    }

    pub open spec fn has_agent(self, k: Seq<char>) -> bool {
        self.agents@.contains_key(k)
    }

    /// Every map is well formed.
    pub open spec fn maps_wf(self) -> bool {
        &&& self.agents.wf()
        &&& self.address_to_id.wf()
        &&& self.wallets.wf()
        &&& self.services.wf()
        &&& self.agent_transactions.wf()
        &&& self.messages.wf()
        &&& self.inboxes.wf()
        &&& self.outboxes.wf()
        &&& self.purchase_orders.wf()
        &&& self.buyer_pos.wf()
        &&& self.seller_pos.wf()
        &&& self.invoices.wf()
        &&& self.buyer_invoices.wf()
        &&& self.seller_invoices.wf()
        &&& self.receipts.wf()
        &&& self.financials.wf()
    }

    /// The well-formedness invariant every call preserves.
    pub open spec fn wf(self) -> bool {
        &&& self.maps_wf()
        &&& self.config.service_fee_percentage <= 10000
        &&& self.config.next_agent_id >= 1
        &&& self.config.next_service_id >= 1
        &&& self.config.next_tx_id >= 1
        // escrow invariant of every wallet
        &&& forall|k: Seq<char>|
            #[trigger] self.wallets@.contains_key(k) ==> wallet_ok(self.wallets@[k])
        // each agent has a wallet and each wallet an agent
        &&& forall|k: Seq<char>|
            #[trigger] self.agents@.contains_key(k) ==> self.wallets@.contains_key(k)
        &&& forall|k: Seq<char>|
            #[trigger] self.wallets@.contains_key(k) ==> self.agents@.contains_key(k)
        // the transaction log is dense and ids match positions
        &&& self.transactions@.len() + 1 == self.config.next_tx_id
        &&& forall|i: int|
            0 <= i < self.transactions@.len() ==> (#[trigger] self.transactions@[i]).tx_id == i
                + 1
        // per-agent transaction indices are ascending and in range
        &&& forall|k: Seq<char>|
            #[trigger] self.agent_transactions@.contains_key(k) ==> tx_list_ok(
                self.agent_transactions@[k]@,
                self.config.next_tx_id,
            )
        // services reference registered agents
        &&& forall|k: Seq<char>|
            #[trigger] self.services@.contains_key(k) ==> self.has_agent(
                self.services@[k].requester_agent_id@,
            ) && self.has_agent(self.services@[k].provider_agent_id@)
        // every stored id was allocated below its counter
        &&& forall|k: Seq<char>|
            #[trigger] self.agents@.contains_key(k) ==> exists|t: u64, n: nat|
                1 <= n < self.config.next_agent_id && k == agent_id_text(t, n)
        &&& forall|k: Seq<char>|
            #[trigger] self.services@.contains_key(k) ==> exists|a: Seq<char>, b: Seq<char>, n: nat|
                1 <= n < self.config.next_service_id && k == service_id_text(a, b, n)
        &&& forall|k: Seq<char>|
            #[trigger] self.messages@.contains_key(k) ==> exists|n: nat|
                1 <= n <= self.message_counter && k == message_id_text(n)
        &&& forall|k: Seq<char>|
            #[trigger] self.purchase_orders@.contains_key(k) ==> exists|n: nat, t: nat|
                1 <= n <= self.po_counter && k == po_id_text(n, t)
        &&& forall|k: Seq<char>|
            #[trigger] self.invoices@.contains_key(k) ==> exists|n: nat, t: nat|
                1 <= n <= self.invoice_counter && k == invoice_id_text(n, t)
    }
}

} // verus!
