//! Message-level value types: coins, transfer instructions, workflow tags,
//! line items, and the response shape every call returns.

use vstd::prelude::*;

verus! {

/// A quantity of one denomination of the settlement asset.
#[derive(Debug)]
pub struct Coin {
    pub denom: String,
    pub amount: u128,
}

/// The view of a coin: denomination characters plus amount.
pub ghost struct CoinV {
    pub denom: Seq<char>,
    pub amount: u128,
}

impl View for Coin {
    type V = CoinV;

    open spec fn view(&self) -> CoinV {
        CoinV { denom: self.denom@, amount: self.amount }
    }
}

impl Coin {
    pub fn dup(&self) -> (r: Coin)
        ensures
            r@ == self@,
    {
        Coin { denom: self.denom.clone(), amount: self.amount }
    }
}

/// One leg of a batch transfer.
#[derive(Debug)]
pub struct Transfer {
    pub to_agent_id: String,
    pub amount: Coin,
    pub memo: Option<String>,
}

#[derive(Clone, Copy, PartialEq, Eq, Structural, Debug)]
pub enum ServiceStatus {
    Pending,
    InProgress,
    Completed,
    Failed,
    Refunded,
}

#[derive(Clone, Copy, PartialEq, Eq, Structural, Debug)]
pub enum TransactionType {
    Deposit,
    Withdrawal,
    Transfer,
    ServicePayment,
    ServiceRefund,
    Fee,
}

/// Tag of a mailbox message; the open-ended case carries an opaque label.
#[derive(Debug)]
pub enum MessageType {
    ServiceRequest,
    ServiceResponse,
    Negotiation,
    Information,
    Alert,
    PurchaseOrder,
    Invoice,
    PaymentNotification,
    ReceiptConfirmation,
    Custom(String),
}

/// The view of a message tag.
pub ghost enum MessageTypeV {
    ServiceRequest,
    ServiceResponse,
    Negotiation,
    Information,
    Alert,
    PurchaseOrder,
    Invoice,
    PaymentNotification,
    ReceiptConfirmation,
    Custom(Seq<char>),
}

impl View for MessageType {
    type V = MessageTypeV;

    open spec fn view(&self) -> MessageTypeV {
        match self {
            MessageType::ServiceRequest => MessageTypeV::ServiceRequest,
            MessageType::ServiceResponse => MessageTypeV::ServiceResponse,
            MessageType::Negotiation => MessageTypeV::Negotiation,
            MessageType::Information => MessageTypeV::Information,
            MessageType::Alert => MessageTypeV::Alert,
            MessageType::PurchaseOrder => MessageTypeV::PurchaseOrder,
            MessageType::Invoice => MessageTypeV::Invoice,
            MessageType::PaymentNotification => MessageTypeV::PaymentNotification,
            MessageType::ReceiptConfirmation => MessageTypeV::ReceiptConfirmation,
            MessageType::Custom(s) => MessageTypeV::Custom(s@),
        }
    }
}

impl MessageType {
    pub fn dup(&self) -> (r: MessageType)
        ensures
            r@ == self@,
    {
        match self {
            MessageType::ServiceRequest => MessageType::ServiceRequest,
            MessageType::ServiceResponse => MessageType::ServiceResponse,
            MessageType::Negotiation => MessageType::Negotiation,
            MessageType::Information => MessageType::Information,
            MessageType::Alert => MessageType::Alert,
            MessageType::PurchaseOrder => MessageType::PurchaseOrder,
            MessageType::Invoice => MessageType::Invoice,
            MessageType::PaymentNotification => MessageType::PaymentNotification,
            MessageType::ReceiptConfirmation => MessageType::ReceiptConfirmation,
            MessageType::Custom(s) => MessageType::Custom(s.clone()),
        }
    }
}

/// One line of a purchase order.
#[derive(Debug)]
pub struct PurchaseOrderItem {
    pub item_id: String,
    pub description: String,
    pub quantity: u64,
    pub unit_price: u128,
    pub unit: String,
}

pub ghost struct PurchaseOrderItemV {
    pub item_id: Seq<char>,
    pub description: Seq<char>,
    pub quantity: u64,
    pub unit_price: u128,
    pub unit: Seq<char>,
}

impl View for PurchaseOrderItem {
    type V = PurchaseOrderItemV;

    open spec fn view(&self) -> PurchaseOrderItemV {
        PurchaseOrderItemV {
            item_id: self.item_id@,
            description: self.description@,
            quantity: self.quantity,
            unit_price: self.unit_price,
            unit: self.unit@,
        }
    }
}

#[derive(Clone, Copy, PartialEq, Eq, Structural, Debug)]
pub enum PaymentType {
    Immediate,
    Net,
    Deposit,
    Milestone,
}

#[derive(Clone, Copy, PartialEq, Eq, Structural, Debug)]
pub struct PaymentTerms {
    pub payment_type: PaymentType,
    pub deposit_percentage: Option<u64>,
    pub net_days: u64,
}

#[derive(Clone, Copy, PartialEq, Eq, Structural, Debug)]
pub enum PurchaseOrderStatus {
    Draft,
    Submitted,
    Accepted,
    Rejected,
    InProgress,
    Delivered,
    Completed,
    Cancelled,
}

/// One line of an invoice.
#[derive(Debug)]
pub struct InvoiceLineItem {
    pub description: String,
    pub quantity: u64,
    pub unit_price: u128,
    pub po_item_id: Option<String>,
}

pub ghost struct InvoiceLineItemV {
    pub description: Seq<char>,
    pub quantity: u64,
    pub unit_price: u128,
    pub po_item_id: Option<Seq<char>>,
}

impl View for InvoiceLineItem {
    type V = InvoiceLineItemV;

    open spec fn view(&self) -> InvoiceLineItemV {
        InvoiceLineItemV {
            description: self.description@,
            quantity: self.quantity,
            unit_price: self.unit_price,
            po_item_id: match self.po_item_id {
                Some(ref s) => Some(s@),
                None => None,
            },
        }
    }
}

/// One received item reported on a receipt.
#[derive(Debug)]
pub struct ItemReceipt {
    pub po_item_id: String,
    pub quantity_received: u64,
    pub condition: ItemCondition,
    pub notes: Option<String>,
}

pub ghost struct ItemReceiptV {
    pub po_item_id: Seq<char>,
    pub quantity_received: u64,
    pub condition: ItemCondition,
    pub notes: Option<Seq<char>>,
}

impl View for ItemReceipt {
    type V = ItemReceiptV;

    open spec fn view(&self) -> ItemReceiptV {
        ItemReceiptV {
            po_item_id: self.po_item_id@,
            quantity_received: self.quantity_received,
            condition: self.condition,
            notes: match self.notes {
                Some(ref s) => Some(s@),
                None => None,
            },
        }
    }
}

#[derive(Clone, Copy, PartialEq, Eq, Structural, Debug)]
pub enum ItemCondition {
    Good,
    Damaged,
    Missing,
    Wrong,
}

#[derive(Clone, Copy, PartialEq, Eq, Structural, Debug)]
pub enum AgentRole {
    Buyer,
    Seller,
    Both,
}

/// A key-value attribute of a successful call.
#[derive(Debug)]
pub struct Attribute {
    pub key: String,
    pub value: String,
}

/// An outbound native-asset transfer instruction for the host to execute.
#[derive(Debug)]
pub struct BankTransfer {
    pub to_address: String,
    pub amount: Coin,
}

pub ghost struct BankTransferV {
    pub to_address: Seq<char>,
    pub amount: CoinV,
}

impl View for BankTransfer {
    type V = BankTransferV;

    open spec fn view(&self) -> BankTransferV {
        BankTransferV { to_address: self.to_address@, amount: self.amount@ }
    }
}

/// What a successful call returns: attributes plus outbound transfers.
#[derive(Debug)]
pub struct Response {
    pub attributes: Vec<Attribute>,
    pub transfers: Vec<BankTransfer>,
}

/// The attributes of a response as key-value character sequences.
pub open spec fn attrs_of(r: Response) -> Seq<(Seq<char>, Seq<char>)> {
    r.attributes@.map_values(|a: Attribute| (a.key@, a.value@))
}

/// The transfer instructions of a response, by view.
pub open spec fn transfers_of(r: Response) -> Seq<BankTransferV> {
    r.transfers@.map_values(|t: BankTransfer| t@)
}

impl Response {
    pub fn new() -> (r: Response)
        ensures
            attrs_of(r) == Seq::<(Seq<char>, Seq<char>)>::empty(),
            transfers_of(r) == Seq::<BankTransferV>::empty(),
    {
        let r = Response { attributes: Vec::new(), transfers: Vec::new() };
        proof {
            assert(attrs_of(r) =~= Seq::<(Seq<char>, Seq<char>)>::empty());
            assert(transfers_of(r) =~= Seq::<BankTransferV>::empty());
        }
        r
    }

    pub fn push_attr(&mut self, key: &str, value: String)
        ensures
            attrs_of(*final(self)) == attrs_of(*old(self)).push((key@, value@)),
            final(self).transfers == old(self).transfers,
    {
        let ghost pre = *self;
        self.attributes.push(Attribute { key: String::from_str(key), value });
        proof {
            assert(attrs_of(*self) =~= attrs_of(pre).push((key@, value@)));
        }
    }

    pub fn push_transfer(&mut self, to_address: String, amount: Coin)
        ensures
            transfers_of(*final(self)) == transfers_of(*old(self)).push(
                (BankTransferV { to_address: to_address@, amount: amount@ }),
            ),
            final(self).attributes == old(self).attributes,
    {
        let ghost pre = *self;
        let ghost v = BankTransferV { to_address: to_address@, amount: amount@ };
        self.transfers.push(BankTransfer { to_address, amount });
        proof {
            assert(transfers_of(*self) =~= transfers_of(pre).push(v));
        }
    }
}

/// Clone a vector of strings, preserving every character.
pub fn clone_strings(v: &Vec<String>) -> (r: Vec<String>)
    ensures
        views_of(r@) == views_of(v@),
{
    let mut r: Vec<String> = Vec::new();
    let n = v.len();
    let mut i: usize = 0;
    while i < n
        invariant
            i <= n,
            n == v@.len(),
            r@.len() == i,
            forall|j: int| 0 <= j < i ==> #[trigger] r@[j]@ == v@[j]@,
        decreases n - i,
    {
        r.push(v[i].clone());
        i = i + 1;
    }
    proof {
        assert(views_of(r@) =~= views_of(v@));
    }
    r
}

/// The views of a sequence of strings.
pub open spec fn views_of(s: Seq<String>) -> Seq<Seq<char>> {
    s.map_values(|x: String| x@)
}

/// The view of an optional string.
pub open spec fn opt_view(o: Option<String>) -> Option<Seq<char>> {
    match o {
        Some(s) => Some(s@),
        None => None,
    }
}

/// Clone an optional string.
pub fn clone_opt_string(o: &Option<String>) -> (r: Option<String>)
    ensures
        opt_view(r) == opt_view(*o),
{
    match o {
        Some(s) => Some(s.clone()),
        None => None,
    }
}

} // verus!
