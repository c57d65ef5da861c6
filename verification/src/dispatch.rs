//! The three verbs the host runtime drives: build the initial state,
//! execute a message, answer a query.  The per-operation contracts live on
//! the named functions these dispatchers delegate to; the dispatchers
//! themselves guarantee well-formedness and atomicity.

use vstd::prelude::*;

use crate::errors::ContractError;
use crate::queries;
use crate::state::State;
use crate::types::{
    Coin, InvoiceLineItem, ItemReceipt, MessageType, PaymentTerms, PurchaseOrderItem,
    PurchaseOrderStatus, Response, ServiceStatus, Transfer, AgentRole,
};

verus! {

/// The (empty) message a contract migration carries; version bookkeeping
/// itself is host-side work.
pub struct MigrateMsg {}

pub struct InstantiateMsg {
    pub stablecoin_denom: String,
    pub min_agent_balance: u128,
    pub service_fee_percentage: u64,
}

pub enum ExecuteMsg {
    RegisterAgent {
        name: String,
        description: String,
        capabilities: Vec<String>,
        service_endpoints: Vec<String>,
        initial_balance: Option<Coin>,
    },
    UpdateAgent {
        agent_id: String,
        name: Option<String>,
        description: Option<String>,
        capabilities: Option<Vec<String>>,
        service_endpoints: Option<Vec<String>>,
    },
    DeactivateAgent { agent_id: String },
    FundAgent { agent_id: String },
    WithdrawFromAgent { agent_id: String, amount: Coin, recipient: String },
    AgentTransfer {
        from_agent_id: String,
        to_agent_id: String,
        amount: Coin,
        memo: Option<String>,
    },
    RequestService {
        requester_agent_id: String,
        provider_agent_id: String,
        service_type: String,
        payment: Coin,
        parameters: String,
    },
    CompleteService { service_id: String, result: String },
    RefundService { service_id: String, reason: String },
    BatchAgentTransfer { from_agent_id: String, transfers: Vec<Transfer> },
    SendMessage {
        from_agent_id: String,
        to_agent_id: String,
        message_type: MessageType,
        content: String,
        requires_response: bool,
    },
    RespondToMessage { message_id: String, from_agent_id: String, response_content: String },
    CreatePurchaseOrder {
        buyer_agent_id: String,
        seller_agent_id: String,
        items: Vec<PurchaseOrderItem>,
        delivery_terms: String,
        payment_terms: PaymentTerms,
        metadata: Option<String>,
    },
    UpdatePurchaseOrder {
        po_id: String,
        status: PurchaseOrderStatus,
        updater_agent_id: String,
        notes: Option<String>,
    },
    CreateInvoice {
        po_id: String,
        seller_agent_id: String,
        line_items: Vec<InvoiceLineItem>,
        tax_rate: Option<u64>,
        discount_rate: Option<u64>,
        due_date: u64,
        metadata: Option<String>,
    },
    PayInvoice { invoice_id: String, buyer_agent_id: String, payment_reference: Option<String> },
    ConfirmReceipt {
        po_id: String,
        buyer_agent_id: String,
        items_received: Vec<ItemReceipt>,
        notes: Option<String>,
    },
    InitiateRefund {
        invoice_id: String,
        requester_agent_id: String,
        amount: Coin,
        reason: String,
    },
    ReconcileAccounts { agent_id: String, period_start: u64, period_end: u64 },
    UpdateConfig {
        stablecoin_denom: Option<String>,
        min_agent_balance: Option<u128>,
        service_fee_percentage: Option<u64>,
    },
}

pub enum QueryMsg {
    Config {},
    Agent { agent_id: String },
    ListAgents { start_after: Option<String>, limit: Option<u32> },
    AgentBalance { agent_id: String },
    Service { service_id: String },
    ListServices {
        agent_id: Option<String>,
        status: Option<ServiceStatus>,
        start_after: Option<String>,
        limit: Option<u32>,
    },
    AgentsByCapability { capability: String, start_after: Option<String>, limit: Option<u32> },
    TransactionHistory { agent_id: String, start_after: Option<u64>, limit: Option<u32> },
    AgentMessages {
        agent_id: String,
        message_type: Option<MessageType>,
        start_after: Option<String>,
        limit: Option<u32>,
    },
    Message { message_id: String },
    PurchaseOrder { po_id: String },
    AgentPurchaseOrders {
        agent_id: String,
        role: AgentRole,
        status: Option<PurchaseOrderStatus>,
        start_after: Option<String>,
        limit: Option<u32>,
    },
    Invoice { invoice_id: String },
    AgentInvoices {
        agent_id: String,
        role: AgentRole,
        paid: Option<bool>,
        start_after: Option<String>,
        limit: Option<u32>,
    },
    AccountSummary { agent_id: String, period_start: Option<u64>, period_end: Option<u64> },
}

/// The structured projection a query returns.
pub enum QueryAnswer {
    Config(queries::ConfigResponse),
    Agent(queries::AgentResponse),
    Agents(queries::AgentsResponse),
    AgentBalance(queries::AgentBalanceResponse),
    Service(queries::ServiceResponse),
    Services(queries::ServicesResponse),
    AgentCapabilities(queries::AgentCapabilitiesResponse),
    TransactionHistory(queries::TransactionHistoryResponse),
    Messages(queries::MessagesResponse),
    Message(queries::MessageResponse),
    PurchaseOrder(queries::PurchaseOrderResponse),
    PurchaseOrders(queries::PurchaseOrdersResponse),
    Invoice(queries::InvoiceResponse),
    Invoices(queries::InvoicesResponse),
    AccountSummary(queries::AccountSummaryResponse),
}

/// Build the initial registry state from the instantiation message.
pub fn instantiate(sender: String, msg: InstantiateMsg) -> (r: Result<State, ContractError>)
    ensures
        r is Ok <==> msg.service_fee_percentage <= 10000,
        msg.service_fee_percentage > 10000 <==> (r matches Err(
            ContractError::InvalidConfig { .. },
        )),
        r matches Ok(st) ==> st.wf() && st.config@ == (crate::state::ConfigV {
            admin: sender@,
            stablecoin_denom: msg.stablecoin_denom@,
            min_agent_balance: msg.min_agent_balance,
            service_fee_percentage: msg.service_fee_percentage,
            next_agent_id: 1,
            next_service_id: 1,
            next_tx_id: 1,
        }),
{
    crate::exec_agents::instantiate(
        sender,
        msg.stablecoin_denom,
        msg.min_agent_balance,
        msg.service_fee_percentage,
    )
}

/// Execute one message against the state: an all-or-nothing transition
/// that refines the handler matching the message's variant.
pub fn execute(state: &mut State, sender: &String, funds: &Vec<Coin>, time: u64, msg: ExecuteMsg) -> (r: Result<Response, ContractError>)
    requires
        old(state).wf(),
    ensures
        final(state).wf(),
        r is Err ==> *final(state) == *old(state),
        msg matches ExecuteMsg::RegisterAgent { name, description, capabilities, service_endpoints, initial_balance } ==> ({
            &&& (r is Ok <==> crate::exec_agents::register_agent_allowed(*old(state), *sender, *funds, name, initial_balance))
            &&& (r matches Ok(resp) ==> crate::exec_agents::register_agent_effect(*old(state), *final(state), *sender, *funds, time, name, description, capabilities, service_endpoints, initial_balance, resp))
        }),
        msg matches ExecuteMsg::UpdateAgent { agent_id, name, description, capabilities, service_endpoints } ==> ({
            &&& (r is Ok <==> crate::exec_agents::update_agent_allowed(*old(state), *sender, time, agent_id, name, description, capabilities, service_endpoints))
            &&& (r matches Ok(resp) ==> crate::exec_agents::update_agent_effect(*old(state), *final(state), *sender, time, agent_id, name, description, capabilities, service_endpoints, resp))
        }),
        msg matches ExecuteMsg::DeactivateAgent { agent_id } ==> ({
            &&& (r is Ok <==> crate::exec_agents::deactivate_agent_allowed(*old(state), *sender, time, agent_id))
            &&& (r matches Ok(resp) ==> crate::exec_agents::deactivate_agent_effect(*old(state), *final(state), *sender, time, agent_id, resp))
        }),
        msg matches ExecuteMsg::FundAgent { agent_id } ==> ({
            &&& (r is Ok <==> crate::exec_agents::fund_agent_allowed(*old(state), *sender, *funds, time, agent_id))
            &&& (r matches Ok(resp) ==> crate::exec_agents::fund_agent_effect(*old(state), *final(state), *sender, *funds, time, agent_id, resp))
        }),
        msg matches ExecuteMsg::WithdrawFromAgent { agent_id, amount, recipient } ==> ({
            &&& (r is Ok <==> crate::exec_agents::withdraw_from_agent_allowed(*old(state), *sender, time, agent_id, amount, recipient))
            &&& (r matches Ok(resp) ==> crate::exec_agents::withdraw_from_agent_effect(*old(state), *final(state), *sender, time, agent_id, amount, recipient, resp))
        }),
        msg matches ExecuteMsg::AgentTransfer { from_agent_id, to_agent_id, amount, memo } ==> ({
            &&& (r is Ok <==> crate::exec_transfer::agent_transfer_allowed(*old(state), *sender, time, from_agent_id, to_agent_id, amount, memo))
            &&& (r matches Ok(resp) ==> crate::exec_transfer::agent_transfer_effect(*old(state), *final(state), *sender, time, from_agent_id, to_agent_id, amount, memo, resp))
        }),
        msg matches ExecuteMsg::RequestService { requester_agent_id, provider_agent_id, service_type, payment, parameters } ==> ({
            &&& (r is Ok <==> crate::exec_services::request_service_allowed(*old(state), *sender, time, requester_agent_id, provider_agent_id, service_type, payment, parameters))
            &&& (r matches Ok(resp) ==> crate::exec_services::request_service_effect(*old(state), *final(state), *sender, time, requester_agent_id, provider_agent_id, service_type, payment, parameters, resp))
        }),
        msg matches ExecuteMsg::CompleteService { service_id, result } ==> ({
            &&& (r is Ok <==> crate::exec_services::complete_service_allowed(*old(state), service_id@, sender@))
            &&& (r matches Ok(resp) ==> crate::exec_services::complete_service_effect(*old(state), *final(state), *sender, time, service_id, result, resp))
        }),
        msg matches ExecuteMsg::RefundService { service_id, reason } ==> ({
            &&& (r is Ok <==> crate::exec_services::refund_service_allowed(*old(state), service_id@, sender@))
            &&& (r matches Ok(resp) ==> crate::exec_services::refund_service_effect(*old(state), *final(state), *sender, time, service_id, reason, resp))
        }),
        msg matches ExecuteMsg::BatchAgentTransfer { from_agent_id, transfers } ==> ({
            &&& (r is Ok <==> crate::exec_transfer::batch_agent_transfer_allowed(*old(state), *sender, time, from_agent_id, transfers))
            &&& (r matches Ok(resp) ==> crate::exec_transfer::batch_agent_transfer_effect(*old(state), *final(state), *sender, time, from_agent_id, transfers, resp))
        }),
        msg matches ExecuteMsg::SendMessage { from_agent_id, to_agent_id, message_type, content, requires_response } ==> ({
            &&& (r is Ok <==> crate::exec_messages::send_message_allowed(*old(state), *sender, time, from_agent_id, to_agent_id, message_type, content, requires_response))
            &&& (r matches Ok(resp) ==> crate::exec_messages::send_message_effect(*old(state), *final(state), *sender, time, from_agent_id, to_agent_id, message_type, content, requires_response, resp))
        }),
        msg matches ExecuteMsg::RespondToMessage { message_id, from_agent_id, response_content } ==> ({
            &&& (r is Ok <==> crate::exec_messages::respond_to_message_allowed(*old(state), *sender, time, message_id, from_agent_id, response_content))
            &&& (r matches Ok(resp) ==> crate::exec_messages::respond_to_message_effect(*old(state), *final(state), *sender, time, message_id, from_agent_id, response_content, resp))
        }),
        msg matches ExecuteMsg::CreatePurchaseOrder { buyer_agent_id, seller_agent_id, items, delivery_terms, payment_terms, metadata } ==> ({
            &&& (r is Ok <==> crate::exec_procurement::create_purchase_order_allowed(*old(state), *sender, time, buyer_agent_id, seller_agent_id, items, delivery_terms, payment_terms, metadata))
            &&& (r matches Ok(resp) ==> crate::exec_procurement::create_purchase_order_effect(*old(state), *final(state), *sender, time, buyer_agent_id, seller_agent_id, items, delivery_terms, payment_terms, metadata, resp))
        }),
        msg matches ExecuteMsg::UpdatePurchaseOrder { po_id, status, updater_agent_id, notes } ==> ({
            &&& (r is Ok <==> crate::exec_procurement::update_purchase_order_allowed(*old(state), *sender, time, po_id, status, updater_agent_id, notes))
            &&& (r matches Ok(resp) ==> crate::exec_procurement::update_purchase_order_effect(*old(state), *final(state), *sender, time, po_id, status, updater_agent_id, notes, resp))
        }),
        msg matches ExecuteMsg::CreateInvoice { po_id, seller_agent_id, line_items, tax_rate, discount_rate, due_date, metadata } ==> ({
            &&& (r is Ok <==> crate::exec_procurement::create_invoice_allowed(*old(state), *sender, time, po_id, seller_agent_id, line_items, tax_rate, discount_rate, due_date, metadata))
            &&& (r matches Ok(resp) ==> crate::exec_procurement::create_invoice_effect(*old(state), *final(state), *sender, time, po_id, seller_agent_id, line_items, tax_rate, discount_rate, due_date, metadata, resp))
        }),
        msg matches ExecuteMsg::PayInvoice { invoice_id, buyer_agent_id, payment_reference } ==> ({
            &&& (r is Ok <==> crate::exec_procurement::pay_invoice_allowed(*old(state), *sender, time, invoice_id, buyer_agent_id, payment_reference))
            &&& (r matches Ok(resp) ==> crate::exec_procurement::pay_invoice_effect(*old(state), *final(state), *sender, time, invoice_id, buyer_agent_id, payment_reference, resp))
        }),
        msg matches ExecuteMsg::ConfirmReceipt { po_id, buyer_agent_id, items_received, notes } ==> ({
            &&& (r is Ok <==> crate::exec_procurement::confirm_receipt_allowed(*old(state), *sender, time, po_id, buyer_agent_id, items_received, notes))
            &&& (r matches Ok(resp) ==> crate::exec_procurement::confirm_receipt_effect(*old(state), *final(state), *sender, time, po_id, buyer_agent_id, items_received, notes, resp))
        }),
        msg matches ExecuteMsg::InitiateRefund { invoice_id, requester_agent_id, amount, reason } ==> ({
            &&& (r is Ok <==> crate::exec_procurement::initiate_refund_allowed(*old(state), *sender, time, invoice_id, requester_agent_id, amount, reason))
            &&& (r matches Ok(resp) ==> crate::exec_procurement::initiate_refund_effect(*old(state), *final(state), *sender, time, invoice_id, requester_agent_id, amount, reason, resp))
        }),
        msg matches ExecuteMsg::ReconcileAccounts { agent_id, period_start, period_end } ==> ({
            &&& (r is Ok <==> crate::exec_procurement::reconcile_accounts_allowed(*old(state), *sender, time, agent_id, period_start, period_end))
            &&& (r matches Ok(resp) ==> crate::exec_procurement::reconcile_accounts_effect(*old(state), *final(state), *sender, time, agent_id, period_start, period_end, resp))
        }),
        msg matches ExecuteMsg::UpdateConfig { stablecoin_denom, min_agent_balance, service_fee_percentage } ==> ({
            &&& (r is Ok <==> crate::exec_agents::update_config_allowed(*old(state), *sender, stablecoin_denom, min_agent_balance, service_fee_percentage))
            &&& (r matches Ok(resp) ==> crate::exec_agents::update_config_effect(*old(state), *final(state), *sender, stablecoin_denom, min_agent_balance, service_fee_percentage, resp))
        }),
{
    match msg {
        ExecuteMsg::RegisterAgent {
            name,
            description,
            capabilities,
            service_endpoints,
            initial_balance,
        } => crate::exec_agents::register_agent(
            state,
            sender,
            funds,
            time,
            name,
            description,
            capabilities,
            service_endpoints,
            initial_balance,
        ),
        ExecuteMsg::UpdateAgent { agent_id, name, description, capabilities, service_endpoints } => crate::exec_agents::update_agent(
            state,
            sender,
            time,
            agent_id,
            name,
            description,
            capabilities,
            service_endpoints,
        ),
        ExecuteMsg::DeactivateAgent { agent_id } => crate::exec_agents::deactivate_agent(
            state,
            sender,
            time,
            agent_id,
        ),
        ExecuteMsg::FundAgent { agent_id } => crate::exec_agents::fund_agent(
            state,
            sender,
            funds,
            time,
            agent_id,
        ),
        ExecuteMsg::WithdrawFromAgent { agent_id, amount, recipient } => crate::exec_agents::withdraw_from_agent(
            state,
            sender,
            time,
            agent_id,
            amount,
            recipient,
        ),
        ExecuteMsg::AgentTransfer { from_agent_id, to_agent_id, amount, memo } => crate::exec_transfer::agent_transfer(
            state,
            sender,
            time,
            from_agent_id,
            to_agent_id,
            amount,
            memo,
        ),
        ExecuteMsg::RequestService {
            requester_agent_id,
            provider_agent_id,
            service_type,
            payment,
            parameters,
        } => crate::exec_services::request_service(
            state,
            sender,
            time,
            requester_agent_id,
            provider_agent_id,
            service_type,
            payment,
            parameters,
        ),
        ExecuteMsg::CompleteService { service_id, result } => crate::exec_services::complete_service(
            state,
            sender,
            time,
            service_id,
            result,
        ),
        ExecuteMsg::RefundService { service_id, reason } => crate::exec_services::refund_service(
            state,
            sender,
            time,
            service_id,
            reason,
        ),
        ExecuteMsg::BatchAgentTransfer { from_agent_id, transfers } => crate::exec_transfer::batch_agent_transfer(
            state,
            sender,
            time,
            from_agent_id,
            transfers,
        ),
        ExecuteMsg::SendMessage {
            from_agent_id,
            to_agent_id,
            message_type,
            content,
            requires_response,
        } => crate::exec_messages::send_message(
            state,
            sender,
            time,
            from_agent_id,
            to_agent_id,
            message_type,
            content,
            requires_response,
        ),
        ExecuteMsg::RespondToMessage { message_id, from_agent_id, response_content } => crate::exec_messages::respond_to_message(
            state,
            sender,
            time,
            message_id,
            from_agent_id,
            response_content,
        ),
        ExecuteMsg::CreatePurchaseOrder {
            buyer_agent_id,
            seller_agent_id,
            items,
            delivery_terms,
            payment_terms,
            metadata,
        } => crate::exec_procurement::create_purchase_order(
            state,
            sender,
            time,
            buyer_agent_id,
            seller_agent_id,
            items,
            delivery_terms,
            payment_terms,
            metadata,
        ),
        ExecuteMsg::UpdatePurchaseOrder { po_id, status, updater_agent_id, notes } => crate::exec_procurement::update_purchase_order(
            state,
            sender,
            time,
            po_id,
            status,
            updater_agent_id,
            notes,
        ),
        ExecuteMsg::CreateInvoice {
            po_id,
            seller_agent_id,
            line_items,
            tax_rate,
            discount_rate,
            due_date,
            metadata,
        } => crate::exec_procurement::create_invoice(
            state,
            sender,
            time,
            po_id,
            seller_agent_id,
            line_items,
            tax_rate,
            discount_rate,
            due_date,
            metadata,
        ),
        ExecuteMsg::PayInvoice { invoice_id, buyer_agent_id, payment_reference } => crate::exec_procurement::pay_invoice(
            state,
            sender,
            time,
            invoice_id,
            buyer_agent_id,
            payment_reference,
        ),
        ExecuteMsg::ConfirmReceipt { po_id, buyer_agent_id, items_received, notes } => crate::exec_procurement::confirm_receipt(
            state,
            sender,
            time,
            po_id,
            buyer_agent_id,
            items_received,
            notes,
        ),
        ExecuteMsg::InitiateRefund { invoice_id, requester_agent_id, amount, reason } => crate::exec_procurement::initiate_refund(
            state,
            sender,
            time,
            invoice_id,
            requester_agent_id,
            amount,
            reason,
        ),
        ExecuteMsg::ReconcileAccounts { agent_id, period_start, period_end } => crate::exec_procurement::reconcile_accounts(
            state,
            sender,
            time,
            agent_id,
            period_start,
            period_end,
        ),
        ExecuteMsg::UpdateConfig {
            stablecoin_denom,
            min_agent_balance,
            service_fee_percentage,
        } => crate::exec_agents::update_config(
            state,
            sender,
            stablecoin_denom,
            min_agent_balance,
            service_fee_percentage,
        ),
    }
}

/// Answer one read-only query: the result is the named projection's, and
/// carries everything that projection's contract pins.
pub fn query(state: &State, msg: QueryMsg) -> (r: Result<QueryAnswer, ContractError>)
    requires
        state.wf(),
    ensures
        msg matches QueryMsg::Config {  } ==> (r matches Ok(a) && a matches QueryAnswer::Config(v)
            && queries::config_post(*state, v)),
        msg matches QueryMsg::Agent { agent_id } ==> (match r {
            Ok(a) => a matches QueryAnswer::Agent(v) && queries::agent_post(
                *state,
                agent_id,
                Ok(v),
            ),
            Err(e) => queries::agent_post(*state, agent_id, Err(e)),
        }),
        msg matches QueryMsg::ListAgents { start_after, limit } ==> (r matches Ok(a) && a
            matches QueryAnswer::Agents(v) && queries::list_agents_post(
            *state,
            start_after,
            limit,
            v,
        )),
        msg matches QueryMsg::AgentBalance { agent_id } ==> (match r {
            Ok(a) => a matches QueryAnswer::AgentBalance(v) && queries::agent_balance_post(
                *state,
                agent_id,
                Ok(v),
            ),
            Err(e) => queries::agent_balance_post(*state, agent_id, Err(e)),
        }),
        msg matches QueryMsg::Service { service_id } ==> (match r {
            Ok(a) => a matches QueryAnswer::Service(v) && queries::service_post(
                *state,
                service_id,
                Ok(v),
            ),
            Err(e) => queries::service_post(*state, service_id, Err(e)),
        }),
        msg matches QueryMsg::ListServices { agent_id, status, start_after, limit } ==> (
        r matches Ok(a) && a matches QueryAnswer::Services(v) && queries::list_services_post(
            *state,
            agent_id,
            status,
            start_after,
            limit,
            v,
        )),
        msg matches QueryMsg::AgentsByCapability { capability, start_after, limit } ==> (
        r matches Ok(a) && a matches QueryAnswer::AgentCapabilities(v)
            && queries::agents_by_capability_post(*state, capability, start_after, limit, v)),
        msg matches QueryMsg::TransactionHistory { agent_id, start_after, limit } ==> (match r {
            Ok(a) => a matches QueryAnswer::TransactionHistory(v)
                && queries::transaction_history_post(*state, agent_id, start_after, limit, Ok(v)),
            Err(e) => queries::transaction_history_post(*state, agent_id, start_after, limit, Err(e)),
        }),
        msg matches QueryMsg::AgentMessages { agent_id, message_type, start_after, limit } ==> (
        match r {
            Ok(a) => a matches QueryAnswer::Messages(v) && queries::agent_messages_post(
                *state,
                agent_id,
                message_type,
                start_after,
                limit,
                Ok(v),
            ),
            Err(e) => queries::agent_messages_post(
                *state,
                agent_id,
                message_type,
                start_after,
                limit,
                Err(e),
            ),
        }),
        msg matches QueryMsg::Message { message_id } ==> (match r {
            Ok(a) => a matches QueryAnswer::Message(v) && queries::message_post(
                *state,
                message_id,
                Ok(v),
            ),
            Err(e) => queries::message_post(*state, message_id, Err(e)),
        }),
        msg matches QueryMsg::PurchaseOrder { po_id } ==> (match r {
            Ok(a) => a matches QueryAnswer::PurchaseOrder(v) && queries::purchase_order_post(
                *state,
                po_id,
                Ok(v),
            ),
            Err(e) => queries::purchase_order_post(*state, po_id, Err(e)),
        }),
        msg matches QueryMsg::AgentPurchaseOrders {
            agent_id,
            role,
            status,
            start_after,
            limit,
        } ==> (match r {
            Ok(a) => a matches QueryAnswer::PurchaseOrders(v)
                && queries::agent_purchase_orders_post(
                *state,
                agent_id,
                role,
                status,
                start_after,
                limit,
                Ok(v),
            ),
            Err(e) => queries::agent_purchase_orders_post(
                *state,
                agent_id,
                role,
                status,
                start_after,
                limit,
                Err(e),
            ),
        }),
        msg matches QueryMsg::Invoice { invoice_id } ==> (match r {
            Ok(a) => a matches QueryAnswer::Invoice(v) && queries::invoice_post(
                *state,
                invoice_id,
                Ok(v),
            ),
            Err(e) => queries::invoice_post(*state, invoice_id, Err(e)),
        }),
        msg matches QueryMsg::AgentInvoices { agent_id, role, paid, start_after, limit } ==> (
        match r {
            Ok(a) => a matches QueryAnswer::Invoices(v) && queries::agent_invoices_post(
                *state,
                agent_id,
                role,
                paid,
                start_after,
                limit,
                Ok(v),
            ),
            Err(e) => queries::agent_invoices_post(
                *state,
                agent_id,
                role,
                paid,
                start_after,
                limit,
                Err(e),
            ),
        }),
        msg matches QueryMsg::AccountSummary { agent_id, period_start, period_end } ==> (match r {
            Ok(a) => a matches QueryAnswer::AccountSummary(v) && queries::account_summary_post(
                *state,
                agent_id,
                period_start,
                period_end,
                Ok(v),
            ),
            Err(e) => queries::account_summary_post(
                *state,
                agent_id,
                period_start,
                period_end,
                Err(e),
            ),
        }),
{
    match msg {
        QueryMsg::Config {} => Ok(QueryAnswer::Config(queries::config(state))),
        QueryMsg::Agent { agent_id } => match queries::agent(state, agent_id) {
            Ok(v) => Ok(QueryAnswer::Agent(v)),
            Err(e) => Err(e),
        },
        QueryMsg::ListAgents { start_after, limit } => Ok(
            QueryAnswer::Agents(queries::list_agents(state, start_after, limit)),
        ),
        QueryMsg::AgentBalance { agent_id } => match queries::agent_balance(state, agent_id) {
            Ok(v) => Ok(QueryAnswer::AgentBalance(v)),
            Err(e) => Err(e),
        },
        QueryMsg::Service { service_id } => match queries::service(state, service_id) {
            Ok(v) => Ok(QueryAnswer::Service(v)),
            Err(e) => Err(e),
        },
        QueryMsg::ListServices { agent_id, status, start_after, limit } => Ok(
            QueryAnswer::Services(
                queries::list_services(state, agent_id, status, start_after, limit),
            ),
        ),
        QueryMsg::AgentsByCapability { capability, start_after, limit } => Ok(
            QueryAnswer::AgentCapabilities(
                queries::agents_by_capability(state, capability, start_after, limit),
            ),
        ),
        QueryMsg::TransactionHistory { agent_id, start_after, limit } => match queries::transaction_history(
            state,
            agent_id,
            start_after,
            limit,
        ) {
            Ok(v) => Ok(QueryAnswer::TransactionHistory(v)),
            Err(e) => Err(e),
        },
        QueryMsg::AgentMessages { agent_id, message_type, start_after, limit } => match queries::agent_messages(
            state,
            agent_id,
            message_type,
            start_after,
            limit,
        ) {
            Ok(v) => Ok(QueryAnswer::Messages(v)),
            Err(e) => Err(e),
        },
        QueryMsg::Message { message_id } => match queries::message(state, message_id) {
            Ok(v) => Ok(QueryAnswer::Message(v)),
            Err(e) => Err(e),
        },
        QueryMsg::PurchaseOrder { po_id } => match queries::purchase_order(state, po_id) {
            Ok(v) => Ok(QueryAnswer::PurchaseOrder(v)),
            Err(e) => Err(e),
        },
        QueryMsg::AgentPurchaseOrders { agent_id, role, status, start_after, limit } => match queries::agent_purchase_orders(
            state,
            agent_id,
            role,
            status,
            start_after,
            limit,
        ) {
            Ok(v) => Ok(QueryAnswer::PurchaseOrders(v)),
            Err(e) => Err(e),
        },
        QueryMsg::Invoice { invoice_id } => match queries::invoice(state, invoice_id) {
            Ok(v) => Ok(QueryAnswer::Invoice(v)),
            Err(e) => Err(e),
        },
        QueryMsg::AgentInvoices { agent_id, role, paid, start_after, limit } => match queries::agent_invoices(
            state,
            agent_id,
            role,
            paid,
            start_after,
            limit,
        ) {
            Ok(v) => Ok(QueryAnswer::Invoices(v)),
            Err(e) => Err(e),
        },
        QueryMsg::AccountSummary { agent_id, period_start, period_end } => match queries::account_summary(
            state,
            agent_id,
            period_start,
            period_end,
        ) {
            Ok(v) => Ok(QueryAnswer::AccountSummary(v)),
            Err(e) => Err(e),
        },
    }
}

} // verus!
