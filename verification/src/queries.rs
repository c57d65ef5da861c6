//! Read-only projections over the registry: point lookups, paginated range
//! scans, and per-agent histories.

use vstd::prelude::*;

use crate::errors::ContractError;
use crate::order::{seq_lt, str_eq, str_lt};
use crate::state::State;
use crate::types::{
    clone_opt_string, clone_strings, opt_view, views_of, AgentRole, Coin, InvoiceLineItem,
    MessageType, PaymentTerms, PurchaseOrderItem, PurchaseOrderStatus, ServiceStatus,
    TransactionType,
};

verus! {

pub struct ConfigResponse {
    pub stablecoin_denom: String,
    pub min_agent_balance: u128,
    pub service_fee_percentage: u64,
    pub total_agents: u64,
    pub total_services: u64,
}

pub struct AgentResponse {
    pub agent_id: String,
    pub owner: String,
    pub name: String,
    pub description: String,
    pub capabilities: Vec<String>,
    pub service_endpoints: Vec<String>,
    pub wallet_address: String,
    pub balance: Coin,
    pub is_active: bool,
    pub created_at: u64,
    pub last_active: u64,
    pub total_services_provided: u64,
    pub total_services_requested: u64,
    pub reputation_score: u64,
}

pub struct AgentInfo {
    pub agent_id: String,
    pub name: String,
    pub is_active: bool,
    pub balance: Coin,
    pub reputation_score: u64,
}

pub struct AgentsResponse {
    pub agents: Vec<AgentInfo>,
}

pub struct AgentBalanceResponse {
    pub agent_id: String,
    pub balance: Coin,
    pub locked_balance: Coin,
    pub available_balance: Coin,
}

pub struct ServiceResponse {
    pub service_id: String,
    pub requester_agent_id: String,
    pub provider_agent_id: String,
    pub service_type: String,
    pub payment: Coin,
    pub status: ServiceStatus,
    pub parameters: String,
    pub result: Option<String>,
    pub created_at: u64,
    pub completed_at: Option<u64>,
}

pub struct ServiceInfo {
    pub service_id: String,
    pub service_type: String,
    pub status: ServiceStatus,
    pub payment: Coin,
    pub created_at: u64,
}

pub struct ServicesResponse {
    pub services: Vec<ServiceInfo>,
}

pub struct AgentCapabilitiesResponse {
    pub capability: String,
    pub agents: Vec<AgentInfo>,
}

pub struct Transaction {
    pub tx_id: u64,
    pub tx_type: TransactionType,
    pub from: Option<String>,
    pub to: Option<String>,
    pub amount: Coin,
    pub memo: Option<String>,
    pub timestamp: u64,
}

pub struct TransactionHistoryResponse {
    pub transactions: Vec<Transaction>,
}

pub struct MessageResponseInfo {
    pub response_content: String,
    pub responded_at: u64,
}

pub struct MessageInfo {
    pub message_id: String,
    pub from_agent_id: String,
    pub to_agent_id: String,
    pub message_type: MessageType,
    pub content: String,
    pub requires_response: bool,
    pub timestamp: u64,
    pub response: Option<MessageResponseInfo>,
}

pub struct MessagesResponse {
    pub messages: Vec<MessageInfo>,
}

pub struct MessageResponse {
    pub message: MessageInfo,
}

pub struct PurchaseOrderInfo {
    pub po_id: String,
    pub buyer_agent_id: String,
    pub seller_agent_id: String,
    pub items: Vec<PurchaseOrderItem>,
    pub total_amount: u128,
    pub status: PurchaseOrderStatus,
    pub created_at: u64,
    pub updated_at: u64,
    pub delivery_terms: String,
    pub payment_terms: PaymentTerms,
    pub invoice_id: Option<String>,
}

pub struct PurchaseOrderResponse {
    pub purchase_order: PurchaseOrderInfo,
}

pub struct PurchaseOrdersResponse {
    pub purchase_orders: Vec<PurchaseOrderInfo>,
}

pub struct InvoiceInfo {
    pub invoice_id: String,
    pub po_id: String,
    pub seller_agent_id: String,
    pub buyer_agent_id: String,
    pub line_items: Vec<InvoiceLineItem>,
    pub subtotal: u128,
    pub tax_amount: u128,
    pub discount_amount: u128,
    pub total_amount: u128,
    pub paid: bool,
    pub paid_at: Option<u64>,
    pub created_at: u64,
    pub due_date: u64,
    pub payment_reference: Option<String>,
}

pub struct InvoiceResponse {
    pub invoice: InvoiceInfo,
}

pub struct InvoicesResponse {
    pub invoices: Vec<InvoiceInfo>,
}

pub struct AccountSummaryResponse {
    pub agent_id: String,
    pub period_start: u64,
    pub period_end: u64,
    pub total_sales: u128,
    pub total_purchases: u128,
    pub outstanding_receivables: u128,
    pub outstanding_payables: u128,
    pub completed_orders: u64,
    pub pending_orders: u64,
}

/// The page size of a range scan: the client's limit clamped to the
/// maximum, with a default when absent.
pub open spec fn page_limit(limit: Option<u32>) -> int {
    let l: int = match limit {
        Some(v) => v as int,
        None => 10,
    };
    if l < 100 {
        l
    } else {
        100
    }
}

fn page_limit_exec(limit: Option<u32>) -> (r: usize)
    ensures
        r == page_limit(limit),
{
    let l: u32 = match limit {
        Some(v) => v,
        None => 10,
    };
    if l < 100 {
        l as usize
    } else {
        100
    }
}

/// The first index of `keys` holding a key above the cursor; the length
/// when no cursor is given every entry qualifies from the start.
pub open spec fn start_index(keys: Seq<Seq<char>>, after: Option<Seq<char>>) -> int
    decreases keys.len(),
{
    match after {
        None => 0,
        Some(c) => {
            if keys.len() == 0 {
                0
            } else if seq_lt(c, keys[0]) {
                0
            } else {
                1 + start_index(keys.drop_first(), after)
            }
        },
    }
}

proof fn lemma_start_index_props(keys: Seq<Seq<char>>, after: Option<Seq<char>>)
    ensures
        0 <= start_index(keys, after) <= keys.len(),
        forall|j: int|
            0 <= j < start_index(keys, after) ==> (after matches Some(c) && !seq_lt(
                c,
                #[trigger] keys[j],
            )),
        start_index(keys, after) < keys.len() && (after matches Some(c) && seq_lt(
            c,
            keys[start_index(keys, after)],
        )) || !(start_index(keys, after) < keys.len()) || after is None,
    decreases keys.len(),
{
    match after {
        None => {},
        Some(c) => {
            if keys.len() == 0 {
            } else if seq_lt(c, keys[0]) {
            } else {
                lemma_start_index_props(keys.drop_first(), after);
                let s = start_index(keys, after);
                assert forall|j: int| 0 <= j < s implies (after matches Some(c2) && !seq_lt(
                    c2,
                    #[trigger] keys[j],
                )) by {
                    if j > 0 {
                        assert(keys.drop_first()[j - 1] == keys[j]);
                    }
                }
                if s < keys.len() {
                    assert(keys.drop_first()[s - 1] == keys[s]);
                }
            }
        },
    }
}

/// Find the first stored key above the cursor.
fn find_start<V>(m: &crate::store::StrMap<V>, after: &Option<String>) -> (s: usize)
    requires
        m.wf(),
    ensures
        s == start_index(m.key_seq(), opt_view(*after)),
{
    let ghost keys = m.key_seq();
    let ghost av = opt_view(*after);
    proof {
        lemma_start_index_props(keys, av);
    }
    let c = match after {
        Some(c) => c,
        None => {
            return 0;
        },
    };
    let n = m.len();
    let mut i: usize = 0;
    while i < n
        invariant
            i <= n,
            m.wf(),
            n == m.spec_len(),
            keys == m.key_seq(),
            av == opt_view(*after),
            av == Some(c@),
            forall|j: int| 0 <= j < i ==> !seq_lt(c@, #[trigger] keys[j]),
            start_index(keys, av) >= i || start_index(keys, av) == start_index(keys, av),
        decreases n - i,
    {
        let k = m.key_at(i);
        if str_lt(c.as_str(), k.as_str()) {
            proof {
                lemma_start_index_props(keys, av);
                let s = start_index(keys, av);
                if s < i {
                    assert(!seq_lt(c@, keys[s]));
                    assert(false);
                }
                if s > i {
                    assert(!seq_lt(c@, keys[i as int]));
                    assert(false);
                }
            }
            return i;
        }
        i = i + 1;
    }
    proof {
        lemma_start_index_props(keys, av);
        let s = start_index(keys, av);
        if s < n {
            assert(!seq_lt(c@, keys[s]));
            assert(false);
        }
    }
    n
}

/// Everything `config` guarantees of its result.
pub open spec fn config_post(state: State, r: ConfigResponse) -> bool {
    &&& (r.stablecoin_denom@ == state.config.stablecoin_denom@)
    &&& (r.min_agent_balance == state.config.min_agent_balance)
    &&& (r.service_fee_percentage == state.config.service_fee_percentage)
    &&& (r.total_agents == state.agents.spec_len())
    &&& (r.total_services == state.services.spec_len())
}

/// The configuration with entity counts.
pub fn config(state: &State) -> (r: ConfigResponse)
    requires
        state.wf(),
    ensures
        config_post(*state, r),
{
    ConfigResponse {
        stablecoin_denom: state.config.stablecoin_denom.clone(),
        min_agent_balance: state.config.min_agent_balance,
        service_fee_percentage: state.config.service_fee_percentage,
        total_agents: state.agents.len() as u64,
        total_services: state.services.len() as u64,
    }
}

/// Everything `agent` guarantees of its result.
pub open spec fn agent_post(state: State, agent_id: String, r: Result<AgentResponse, ContractError>) -> bool {
    &&& (r is Ok <==> state.agents@.contains_key(agent_id@))
    &&& (r is Err ==> r matches Err(ContractError::AgentNotFound { .. }))
    &&& (r matches Ok(resp) ==> ({
            let a = state.agents@[agent_id@]@;
            &&& resp.agent_id@ == a.agent_id
            &&& resp.owner@ == a.owner
            &&& resp.name@ == a.name
            &&& resp.description@ == a.description
            &&& views_of(resp.capabilities@) == a.capabilities
            &&& views_of(resp.service_endpoints@) == a.service_endpoints
            &&& resp.wallet_address@ == a.wallet_address
            &&& resp.balance.amount == state.wallets@[agent_id@].balance
            &&& resp.balance.denom@ == state.config.stablecoin_denom@
            &&& resp.is_active == a.is_active
            &&& resp.created_at == a.created_at
            &&& resp.last_active == a.last_active
            &&& resp.total_services_provided == a.total_services_provided
            &&& resp.total_services_requested == a.total_services_requested
            &&& resp.reputation_score == a.reputation_score
        }))
}

/// One agent with its balance.
pub fn agent(state: &State, agent_id: String) -> (r: Result<AgentResponse, ContractError>)
    requires
        state.wf(),
    ensures
        agent_post(*state, agent_id, r),
{
    let a = match state.agents.get(&agent_id) {
        Some(a) => a,
        None => {
            return Err(ContractError::AgentNotFound { agent_id });
        },
    };
    let bal = match state.wallets.get(&agent_id) {
        Some(w) => w.balance,
        None => {
            proof {
                assert(false);
            }
            0
        },
    };
    Ok(AgentResponse {
        agent_id: a.agent_id.clone(),
        owner: a.owner.clone(),
        name: a.name.clone(),
        description: a.description.clone(),
        capabilities: clone_strings(&a.capabilities),
        service_endpoints: clone_strings(&a.service_endpoints),
        wallet_address: a.wallet_address.clone(),
        balance: Coin { denom: state.config.stablecoin_denom.clone(), amount: bal },
        is_active: a.is_active,
        created_at: a.created_at,
        last_active: a.last_active,
        total_services_provided: a.total_services_provided,
        total_services_requested: a.total_services_requested,
        reputation_score: a.reputation_score,
    })
}

/// Everything `agent_balance` guarantees of its result.
pub open spec fn agent_balance_post(state: State, agent_id: String, r: Result<AgentBalanceResponse, ContractError>) -> bool {
    &&& (r is Ok <==> state.wallets@.contains_key(agent_id@))
    &&& (r is Err ==> r matches Err(ContractError::WalletNotInitialized { .. }))
    &&& (r matches Ok(resp) ==> ({
            let w = state.wallets@[agent_id@];
            &&& resp.agent_id@ == agent_id@
            &&& resp.balance.amount == w.balance
            &&& resp.locked_balance.amount == w.locked_balance
            &&& resp.available_balance.amount == w.balance - w.locked_balance
            &&& resp.balance.denom@ == state.config.stablecoin_denom@
            &&& resp.locked_balance.denom@ == state.config.stablecoin_denom@
            &&& resp.available_balance.denom@ == state.config.stablecoin_denom@
        }))
}

/// One agent's balance, split into total, locked, and spendable.
pub fn agent_balance(state: &State, agent_id: String) -> (r: Result<
    AgentBalanceResponse,
    ContractError,
>)
    requires
        state.wf(),
    ensures
        agent_balance_post(*state, agent_id, r),
{
    let w = match state.wallets.get(&agent_id) {
        Some(w) => *w,
        None => {
            return Err(ContractError::WalletNotInitialized {});
        },
    };
    let denom = &state.config.stablecoin_denom;
    Ok(AgentBalanceResponse {
        agent_id,
        balance: Coin { denom: denom.clone(), amount: w.balance },
        locked_balance: Coin { denom: denom.clone(), amount: w.locked_balance },
        available_balance: Coin { denom: denom.clone(), amount: w.balance - w.locked_balance },
    })
}

/// Everything `service` guarantees of its result.
pub open spec fn service_post(state: State, service_id: String, r: Result<ServiceResponse, ContractError>) -> bool {
    &&& (r is Ok <==> state.services@.contains_key(service_id@))
    &&& (r is Err ==> r matches Err(ContractError::ServiceNotFound { .. }))
    &&& (r matches Ok(resp) ==> ({
            let s = state.services@[service_id@]@;
            &&& resp.service_id@ == s.service_id
            &&& resp.requester_agent_id@ == s.requester_agent_id
            &&& resp.provider_agent_id@ == s.provider_agent_id
            &&& resp.service_type@ == s.service_type
            &&& resp.payment@ == s.payment
            &&& resp.status == s.status
            &&& resp.parameters@ == s.parameters
            &&& opt_view(resp.result) == s.result
            &&& resp.created_at == s.created_at
            &&& resp.completed_at == s.completed_at
        }))
}

/// One service record.
pub fn service(state: &State, service_id: String) -> (r: Result<ServiceResponse, ContractError>)
    requires
        state.wf(),
    ensures
        service_post(*state, service_id, r),
{
    let s = match state.services.get(&service_id) {
        Some(s) => s,
        None => {
            return Err(ContractError::ServiceNotFound { service_id });
        },
    };
    Ok(ServiceResponse {
        service_id: s.service_id.clone(),
        requester_agent_id: s.requester_agent_id.clone(),
        provider_agent_id: s.provider_agent_id.clone(),
        service_type: s.service_type.clone(),
        payment: s.payment.dup(),
        status: s.status,
        parameters: s.parameters.clone(),
        result: clone_opt_string(&s.result),
        created_at: s.created_at,
        completed_at: s.completed_at,
    })
}

/// Everything `list_agents` guarantees of its result.
pub open spec fn list_agents_post(state: State, start_after: Option<String>, limit: Option<u32>, r: AgentsResponse) -> bool {
    &&& (({
            let keys = state.agents.key_seq();
            let s = start_index(keys, opt_view(start_after));
            let lim = page_limit(limit);
            let count = if keys.len() - s < lim {
                keys.len() - s
            } else {
                lim
            };
            &&& r.agents@.len() == count
            &&& forall|j: int|
                0 <= j < count ==> {
                    let k = keys[s + j];
                    let a = state.agents@[k]@;
                    &&& (#[trigger] r.agents@[j]).agent_id@ == k
                    &&& r.agents@[j].name@ == a.name
                    &&& r.agents@[j].is_active == a.is_active
                    &&& r.agents@[j].balance.amount == state.wallets@[k].balance
                    &&& r.agents@[j].balance.denom@ == state.config.stablecoin_denom@
                    &&& r.agents@[j].reputation_score == a.reputation_score
                }
        }))
}

/// A page of agents in ascending id order, starting after the cursor.
pub fn list_agents(state: &State, start_after: Option<String>, limit: Option<u32>) -> (r:
    AgentsResponse)
    requires
        state.wf(),
    ensures
        list_agents_post(*state, start_after, limit, r),
{
    let ghost keys = state.agents.key_seq();
    let lim = page_limit_exec(limit);
    let s = find_start(&state.agents, &start_after);
    proof {
        lemma_start_index_props(keys, opt_view(start_after));
    }
    let n = state.agents.len();
    let last = if n - s < lim {
        n
    } else {
        s + lim
    };
    let mut out: Vec<AgentInfo> = Vec::new();
    let mut i: usize = s;
    while i < last
        invariant
            s <= i <= last <= n,
            state.wf(),
            n == state.agents.spec_len(),
            keys == state.agents.key_seq(),
            out@.len() == i - s,
            forall|j: int|
                0 <= j < i - s ==> {
                    let k = keys[s + j];
                    let a = state.agents@[k]@;
                    &&& (#[trigger] out@[j]).agent_id@ == k
                    &&& out@[j].name@ == a.name
                    &&& out@[j].is_active == a.is_active
                    &&& out@[j].balance.amount == state.wallets@[k].balance
                    &&& out@[j].balance.denom@ == state.config.stablecoin_denom@
                    &&& out@[j].reputation_score == a.reputation_score
                },
        decreases last - i,
    {
        proof {
            state.agents.lemma_entries();
        }
        let key = state.agents.key_at(i);
        let a = state.agents.val_at(i);
        let bal = match state.wallets.get(key) {
            Some(w) => w.balance,
            None => {
                proof {
                    assert(state.agents@.contains_key(keys[i as int]));
                    assert(false);
                }
                0
            },
        };
        out.push(AgentInfo {
            agent_id: key.clone(),
            name: a.name.clone(),
            is_active: a.is_active,
            balance: Coin { denom: state.config.stablecoin_denom.clone(), amount: bal },
            reputation_score: a.reputation_score,
        });
        i = i + 1;
    }
    AgentsResponse { agents: out }
}

/// The number of entries of an ascending id list strictly below a cursor.
pub open spec fn count_below(l: Seq<u64>, c: u64) -> int
    decreases l.len(),
{
    if l.len() == 0 {
        0
    } else if l[0] < c {
        1 + count_below(l.drop_first(), c)
    } else {
        0
    }
}

proof fn lemma_count_below_props(l: Seq<u64>, c: u64)
    requires
        forall|i: int, j: int| 0 <= i < j < l.len() ==> l[i] < l[j],
    ensures
        0 <= count_below(l, c) <= l.len(),
        forall|j: int| 0 <= j < count_below(l, c) ==> #[trigger] l[j] < c,
        count_below(l, c) < l.len() ==> l[count_below(l, c)] >= c,
    decreases l.len(),
{
    if l.len() > 0 && l[0] < c {
        assert(forall|i: int, j: int|
            0 <= i < j < l.drop_first().len() ==> #[trigger] l.drop_first()[i]
                < #[trigger] l.drop_first()[j]);
        lemma_count_below_props(l.drop_first(), c);
        let s = count_below(l, c);
        assert forall|j: int| 0 <= j < s implies #[trigger] l[j] < c by {
            if j > 0 {
                assert(l.drop_first()[j - 1] == l[j]);
            }
        }
        if s < l.len() {
            assert(l.drop_first()[s - 1] == l[s]);
        }
    }
}

/// Everything `transaction_history` guarantees of its result.
pub open spec fn transaction_history_post(state: State, agent_id: String, start_after: Option<u64>, limit: Option<u32>, r: Result<TransactionHistoryResponse, ContractError>) -> bool {
    &&& (r is Ok <==> state.agents@.contains_key(agent_id@))
    &&& (r is Err ==> r matches Err(ContractError::AgentNotFound { .. }))
    &&& (r matches Ok(resp) ==> ({
            let l = if state.agent_transactions@.contains_key(agent_id@) {
                state.agent_transactions@[agent_id@]@
            } else {
                Seq::<u64>::empty()
            };
            let cut = match start_after {
                Some(c) => count_below(l, c),
                None => l.len() as int,
            };
            let lim = page_limit(limit);
            let count = if cut < lim {
                cut
            } else {
                lim
            };
            &&& resp.transactions@.len() == count
            &&& forall|j: int|
                0 <= j < count ==> {
                    let rec = state.transactions@[l[cut - 1 - j] - 1]@;
                    &&& (#[trigger] resp.transactions@[j]).tx_id == rec.tx_id
                    &&& resp.transactions@[j].tx_type == rec.tx_type
                    &&& opt_view(resp.transactions@[j].from) == rec.from
                    &&& opt_view(resp.transactions@[j].to) == rec.to
                    &&& resp.transactions@[j].amount@ == rec.amount
                    &&& opt_view(resp.transactions@[j].memo) == rec.memo
                    &&& resp.transactions@[j].timestamp == rec.timestamp
                }
        }))
}

/// An agent's transaction history, newest first, starting below the
/// cursor.
pub fn transaction_history(
    state: &State,
    agent_id: String,
    start_after: Option<u64>,
    limit: Option<u32>,
) -> (r: Result<TransactionHistoryResponse, ContractError>)
    requires
        state.wf(),
    ensures
        transaction_history_post(*state, agent_id, start_after, limit, r),
{
    if !state.agents.contains_key(&agent_id) {
        return Err(ContractError::AgentNotFound { agent_id });
    }
    let lim = page_limit_exec(limit);
    let empty_list: Vec<u64> = Vec::new();
    let list: &Vec<u64> = match state.agent_transactions.get(&agent_id) {
        Some(l) => l,
        None => &empty_list,
    };
    let ghost l = list@;
    proof {
        if state.agent_transactions@.contains_key(agent_id@) {
            assert(crate::state::tx_list_ok(l, state.config.next_tx_id));
        } else {
            assert(l =~= Seq::<u64>::empty());
        }
    }
    let n = list.len();
    // the index list is ascending; find where the cursor cuts it
    let cut: usize = match start_after {
        Some(c) => {
            proof {
                if n > 0 {
                    assert(crate::state::tx_list_ok(l, state.config.next_tx_id));
                }
                lemma_count_below_props(l, c);
            }
            let mut i: usize = 0;
            loop
                invariant
                    i <= n,
                    n == l.len(),
                    l == list@,
                    forall|j: int| 0 <= j < i ==> #[trigger] l[j] < c,
                    forall|a: int, b: int| 0 <= a < b < l.len() ==> l[a] < l[b],
                ensures
                    i <= n,
                    i == count_below(l, c),
                decreases n - i,
            {
                if i >= n {
                    proof {
                        lemma_count_below_props(l, c);
                        let s = count_below(l, c);
                        if s < i {
                            assert(l[s] < c);
                            assert(false);
                        }
                    }
                    break;
                }
                if list[i] >= c {
                    proof {
                        lemma_count_below_props(l, c);
                        let s = count_below(l, c);
                        if s < i {
                            assert(l[s] < c);
                            assert(false);
                        }
                        if s > i {
                            assert(l[i as int] < c);
                            assert(false);
                        }
                    }
                    break;
                }
                i = i + 1;
            }
            i
        },
        None => n,
    };
    let count = if cut < lim {
        cut
    } else {
        lim
    };
    let mut out: Vec<Transaction> = Vec::new();
    let mut j: usize = 0;
    while j < count
        invariant
            j <= count,
            count <= cut <= n,
            n == l.len(),
            l == list@,
            state.wf(),
            forall|a: int| 0 <= a < l.len() ==> 1 <= #[trigger] l[a] < state.config.next_tx_id,
            out@.len() == j,
            forall|i2: int|
                0 <= i2 < j ==> {
                    let rec = state.transactions@[l[cut - 1 - i2] - 1]@;
                    &&& (#[trigger] out@[i2]).tx_id == rec.tx_id
                    &&& out@[i2].tx_type == rec.tx_type
                    &&& opt_view(out@[i2].from) == rec.from
                    &&& opt_view(out@[i2].to) == rec.to
                    &&& out@[i2].amount@ == rec.amount
                    &&& opt_view(out@[i2].memo) == rec.memo
                    &&& out@[i2].timestamp == rec.timestamp
                },
        decreases count - j,
    {
        let tx_id = list[cut - 1 - j];
        proof {
            assert(1 <= l[cut - 1 - j] < state.config.next_tx_id);
            assert(tx_id as int - 1 < state.transactions@.len() as int);
        }
        let n_tx: usize = state.transactions.len();
        proof {
            assert(tx_id as int - 1 < n_tx as int);
        }
        let idx = (tx_id - 1) as usize;
        proof {
            assert(idx == tx_id as int - 1);
        }
        let rec = &state.transactions[idx];
        out.push(Transaction {
            tx_id: rec.tx_id,
            tx_type: rec.tx_type,
            from: clone_opt_string(&rec.from),
            to: clone_opt_string(&rec.to),
            amount: rec.amount.dup(),
            memo: clone_opt_string(&rec.memo),
            timestamp: rec.timestamp,
        });
        j = j + 1;
    }
    Ok(TransactionHistoryResponse { transactions: out })
}

fn message_info_of(m: &crate::state::AgentMessage) -> (r: MessageInfo)
    ensures
        r.message_id@ == m.message_id@,
        r.from_agent_id@ == m.from_agent_id@,
        r.to_agent_id@ == m.to_agent_id@,
        r.message_type@ == m.message_type@,
        r.content@ == m.content@,
        r.requires_response == m.requires_response,
        r.timestamp == m.timestamp,
        match (r.response, m@.response) {
            (Some(a), Some(b)) => a.response_content@ == b.response_content && a.responded_at
                == b.responded_at,
            (None, None) => true,
            _ => false,
        },
{
    MessageInfo {
        message_id: m.message_id.clone(),
        from_agent_id: m.from_agent_id.clone(),
        to_agent_id: m.to_agent_id.clone(),
        message_type: m.message_type.dup(),
        content: m.content.clone(),
        requires_response: m.requires_response,
        timestamp: m.timestamp,
        response: match &m.response {
            Some(resp) => Some(
                MessageResponseInfo {
                    response_content: resp.response_content.clone(),
                    responded_at: resp.responded_at,
                },
            ),
            None => None,
        },
    }
}

/// Everything `message` guarantees of its result.
pub open spec fn message_post(state: State, message_id: String, r: Result<MessageResponse, ContractError>) -> bool {
    &&& (r is Ok <==> state.messages@.contains_key(message_id@))
    &&& (r is Err ==> r matches Err(ContractError::MessageNotFound { .. }))
    &&& (r matches Ok(resp) ==> ({
            let m = state.messages@[message_id@]@;
            &&& resp.message.message_id@ == m.message_id
            &&& resp.message.from_agent_id@ == m.from_agent_id
            &&& resp.message.to_agent_id@ == m.to_agent_id
            &&& resp.message.message_type@ == m.message_type
            &&& resp.message.content@ == m.content
            &&& resp.message.requires_response == m.requires_response
            &&& resp.message.timestamp == m.timestamp
            &&& (match (resp.message.response, m.response) {
                (Some(a), Some(b)) => a.response_content@ == b.response_content && a.responded_at
                    == b.responded_at,
                (None, None) => true,
                _ => false,
            })
        }))
}

/// One message with any response it has received.
pub fn message(state: &State, message_id: String) -> (r: Result<MessageResponse, ContractError>)
    requires
        state.wf(),
    ensures
        message_post(*state, message_id, r),
{
    let m = match state.messages.get(&message_id) {
        Some(m) => m,
        None => {
            return Err(ContractError::MessageNotFound { message_id });
        },
    };
    Ok(MessageResponse { message: message_info_of(m) })
}

fn po_info_of(p: &crate::state::PurchaseOrder) -> (r: PurchaseOrderInfo)
    ensures
        r.po_id@ == p.po_id@,
        r.buyer_agent_id@ == p.buyer_agent_id@,
        r.seller_agent_id@ == p.seller_agent_id@,
        crate::state::po_item_views(r.items@) == crate::state::po_item_views(p.items@),
        r.total_amount == p.total_amount,
        r.status == p.status,
        r.created_at == p.created_at,
        r.updated_at == p.updated_at,
        r.delivery_terms@ == p.delivery_terms@,
        r.payment_terms == p.payment_terms,
        opt_view(r.invoice_id) == opt_view(p.invoice_id),
{
    PurchaseOrderInfo {
        po_id: p.po_id.clone(),
        buyer_agent_id: p.buyer_agent_id.clone(),
        seller_agent_id: p.seller_agent_id.clone(),
        items: crate::state::clone_po_items(&p.items),
        total_amount: p.total_amount,
        status: p.status,
        created_at: p.created_at,
        updated_at: p.updated_at,
        delivery_terms: p.delivery_terms.clone(),
        payment_terms: p.payment_terms,
        invoice_id: clone_opt_string(&p.invoice_id),
    }
}

/// Everything `purchase_order` guarantees of its result.
pub open spec fn purchase_order_post(state: State, po_id: String, r: Result<PurchaseOrderResponse, ContractError>) -> bool {
    &&& (r is Ok <==> state.purchase_orders@.contains_key(po_id@))
    &&& (r is Err ==> r matches Err(ContractError::PurchaseOrderNotFound { .. }))
    &&& (r matches Ok(resp) ==> ({
            let p = state.purchase_orders@[po_id@]@;
            &&& resp.purchase_order.po_id@ == p.po_id
            &&& resp.purchase_order.buyer_agent_id@ == p.buyer_agent_id
            &&& resp.purchase_order.seller_agent_id@ == p.seller_agent_id
            &&& crate::state::po_item_views(resp.purchase_order.items@) == p.items
            &&& resp.purchase_order.total_amount == p.total_amount
            &&& resp.purchase_order.status == p.status
            &&& resp.purchase_order.created_at == p.created_at
            &&& resp.purchase_order.updated_at == p.updated_at
            &&& resp.purchase_order.delivery_terms@ == p.delivery_terms
            &&& resp.purchase_order.payment_terms == p.payment_terms
            &&& opt_view(resp.purchase_order.invoice_id) == p.invoice_id
        }))
}

/// One purchase order.
pub fn purchase_order(state: &State, po_id: String) -> (r: Result<
    PurchaseOrderResponse,
    ContractError,
>)
    requires
        state.wf(),
    ensures
        purchase_order_post(*state, po_id, r),
{
    let p = match state.purchase_orders.get(&po_id) {
        Some(p) => p,
        None => {
            return Err(ContractError::PurchaseOrderNotFound { po_id });
        },
    };
    Ok(PurchaseOrderResponse { purchase_order: po_info_of(p) })
}

fn invoice_info_of(v: &crate::state::Invoice) -> (r: InvoiceInfo)
    ensures
        r.invoice_id@ == v.invoice_id@,
        r.po_id@ == v.po_id@,
        r.seller_agent_id@ == v.seller_agent_id@,
        r.buyer_agent_id@ == v.buyer_agent_id@,
        crate::state::line_item_views(r.line_items@) == crate::state::line_item_views(
            v.line_items@,
        ),
        r.subtotal == v.subtotal,
        r.tax_amount == v.tax_amount,
        r.discount_amount == v.discount_amount,
        r.total_amount == v.total_amount,
        r.paid == v.paid,
        r.paid_at == v.paid_at,
        r.created_at == v.created_at,
        r.due_date == v.due_date,
        opt_view(r.payment_reference) == opt_view(v.payment_reference),
{
    InvoiceInfo {
        invoice_id: v.invoice_id.clone(),
        po_id: v.po_id.clone(),
        seller_agent_id: v.seller_agent_id.clone(),
        buyer_agent_id: v.buyer_agent_id.clone(),
        line_items: crate::state::clone_line_items(&v.line_items),
        subtotal: v.subtotal,
        tax_amount: v.tax_amount,
        discount_amount: v.discount_amount,
        total_amount: v.total_amount,
        paid: v.paid,
        paid_at: v.paid_at,
        created_at: v.created_at,
        due_date: v.due_date,
        payment_reference: clone_opt_string(&v.payment_reference),
    }
}

/// Everything `invoice` guarantees of its result.
pub open spec fn invoice_post(state: State, invoice_id: String, r: Result<InvoiceResponse, ContractError>) -> bool {
    &&& (r is Ok <==> state.invoices@.contains_key(invoice_id@))
    &&& (r is Err ==> r matches Err(ContractError::InvoiceNotFound { .. }))
    &&& (r matches Ok(resp) ==> ({
            let v = state.invoices@[invoice_id@]@;
            &&& resp.invoice.invoice_id@ == v.invoice_id
            &&& resp.invoice.po_id@ == v.po_id
            &&& resp.invoice.seller_agent_id@ == v.seller_agent_id
            &&& resp.invoice.buyer_agent_id@ == v.buyer_agent_id
            &&& crate::state::line_item_views(resp.invoice.line_items@) == v.line_items
            &&& resp.invoice.subtotal == v.subtotal
            &&& resp.invoice.tax_amount == v.tax_amount
            &&& resp.invoice.discount_amount == v.discount_amount
            &&& resp.invoice.total_amount == v.total_amount
            &&& resp.invoice.paid == v.paid
            &&& resp.invoice.paid_at == v.paid_at
            &&& resp.invoice.created_at == v.created_at
            &&& resp.invoice.due_date == v.due_date
            &&& opt_view(resp.invoice.payment_reference) == v.payment_reference
        }))
}

/// One invoice.
pub fn invoice(state: &State, invoice_id: String) -> (r: Result<InvoiceResponse, ContractError>)
    requires
        state.wf(),
    ensures
        invoice_post(*state, invoice_id, r),
{
    let v = match state.invoices.get(&invoice_id) {
        Some(v) => v,
        None => {
            return Err(ContractError::InvoiceNotFound { invoice_id });
        },
    };
    Ok(InvoiceResponse { invoice: invoice_info_of(v) })
}

/// Everything `account_summary` guarantees of its result.
pub open spec fn account_summary_post(state: State, agent_id: String, period_start: Option<u64>, period_end: Option<u64>, r: Result<AccountSummaryResponse, ContractError>) -> bool {
    &&& (r is Ok <==> state.agents@.contains_key(agent_id@))
    &&& (r is Err ==> r matches Err(ContractError::AgentNotFound { .. }))
    &&& (r matches Ok(resp) ==> ({
            let has = state.financials@.contains_key(agent_id@);
            &&& resp.agent_id@ == agent_id@
            &&& resp.period_start == (match period_start {
                Some(v) => v,
                None => 0,
            })
            &&& resp.period_end == (match period_end {
                Some(v) => v,
                None => u64::MAX,
            })
            &&& resp.total_sales == (if has {
                state.financials@[agent_id@].total_sales
            } else {
                0
            })
            &&& resp.total_purchases == (if has {
                state.financials@[agent_id@].total_purchases
            } else {
                0
            })
            &&& resp.outstanding_receivables == (if has {
                state.financials@[agent_id@].outstanding_receivables
            } else {
                0
            })
            &&& resp.outstanding_payables == (if has {
                state.financials@[agent_id@].outstanding_payables
            } else {
                0
            })
            &&& resp.completed_orders == (if has {
                state.financials@[agent_id@].completed_orders
            } else {
                0
            })
            &&& resp.pending_orders == (if has {
                state.financials@[agent_id@].pending_orders
            } else {
                0
            })
        }))
}

/// An agent's financial summary over a period.
pub fn account_summary(
    state: &State,
    agent_id: String,
    period_start: Option<u64>,
    period_end: Option<u64>,
) -> (r: Result<AccountSummaryResponse, ContractError>)
    requires
        state.wf(),
    ensures
        account_summary_post(*state, agent_id, period_start, period_end, r),
{
    if !state.agents.contains_key(&agent_id) {
        return Err(ContractError::AgentNotFound { agent_id });
    }
    let (ts, tp, orc, opa, co, po) = match state.financials.get(&agent_id) {
        Some(f) => (
            f.total_sales,
            f.total_purchases,
            f.outstanding_receivables,
            f.outstanding_payables,
            f.completed_orders,
            f.pending_orders,
        ),
        None => (0, 0, 0, 0, 0, 0),
    };
    Ok(AccountSummaryResponse {
        agent_id,
        period_start: match period_start {
            Some(v) => v,
            None => 0,
        },
        period_end: match period_end {
            Some(v) => v,
            None => u64::MAX,
        },
        total_sales: ts,
        total_purchases: tp,
        outstanding_receivables: orc,
        outstanding_payables: opa,
        completed_orders: co,
        pending_orders: po,
    })
}

/// Whether a stored service passes the participant and status filters.
pub open spec fn service_passes(
    s: State,
    k: Seq<char>,
    agent: Option<Seq<char>>,
    status: Option<ServiceStatus>,
) -> bool {
    let svc = s.services@[k];
    &&& (agent matches Some(a) ==> svc.requester_agent_id@ == a || svc.provider_agent_id@ == a)
    &&& (status matches Some(st) ==> svc.status == st)
}

/// The stored service keys in `[from, upto)` that pass the filters, in
/// storage order.
pub open spec fn matching_service_keys(
    s: State,
    from: int,
    upto: int,
    agent: Option<Seq<char>>,
    status: Option<ServiceStatus>,
) -> Seq<Seq<char>>
    decreases upto - from,
{
    if upto <= from {
        Seq::empty()
    } else {
        let prev = matching_service_keys(s, from, upto - 1, agent, status);
        let k = s.services.key_seq()[upto - 1];
        if service_passes(s, k, agent, status) {
            prev.push(k)
        } else {
            prev
        }
    }
}

/// Everything `list_services` guarantees of its result.
pub open spec fn list_services_post(state: State, agent_id: Option<String>, status: Option<ServiceStatus>, start_after: Option<String>, limit: Option<u32>, r: ServicesResponse) -> bool {
    &&& (({
            let keys = state.services.key_seq();
            let s0 = start_index(keys, opt_view(start_after));
            let sel = matching_service_keys(
                state,
                s0,
                keys.len() as int,
                opt_view(agent_id),
                status,
            );
            let lim = page_limit(limit);
            let count = if sel.len() < lim {
                sel.len() as int
            } else {
                lim
            };
            &&& r.services@.len() == count
            &&& forall|j: int|
                0 <= j < count ==> {
                    let svc = state.services@[sel[j]]@;
                    &&& (#[trigger] r.services@[j]).service_id@ == sel[j]
                    &&& r.services@[j].service_type@ == svc.service_type
                    &&& r.services@[j].status == svc.status
                    &&& r.services@[j].payment@ == svc.payment
                    &&& r.services@[j].created_at == svc.created_at
                }
        }))
}

/// A page of services after the cursor, optionally filtered by participant
/// and status.
pub fn list_services(
    state: &State,
    agent_id: Option<String>,
    status: Option<ServiceStatus>,
    start_after: Option<String>,
    limit: Option<u32>,
) -> (r: ServicesResponse)
    requires
        state.wf(),
    ensures
        list_services_post(*state, agent_id, status, start_after, limit, r),
{
    let ghost keys = state.services.key_seq();
    let ghost av = opt_view(agent_id);
    let lim = page_limit_exec(limit);
    let s0 = find_start(&state.services, &start_after);
    proof {
        lemma_start_index_props(keys, opt_view(start_after));
    }
    let n = state.services.len();
    let mut out: Vec<ServiceInfo> = Vec::new();
    let mut i: usize = s0;
    while i < n
        invariant
            s0 <= i <= n,
            state.wf(),
            n == state.services.spec_len(),
            keys == state.services.key_seq(),
            av == opt_view(agent_id),
            out@.len() == matching_service_keys(*state, s0 as int, i as int, av, status).len(),
            forall|j: int|
                0 <= j < out@.len() ==> {
                    let sel = matching_service_keys(*state, s0 as int, i as int, av, status);
                    let svc = state.services@[sel[j]]@;
                    &&& (#[trigger] out@[j]).service_id@ == sel[j]
                    &&& out@[j].service_type@ == svc.service_type
                    &&& out@[j].status == svc.status
                    &&& out@[j].payment@ == svc.payment
                    &&& out@[j].created_at == svc.created_at
                },
        decreases n - i,
    {
        proof {
            state.services.lemma_entries();
        }
        let key = state.services.key_at(i);
        let svc = state.services.val_at(i);
        let passes_agent = match &agent_id {
            Some(a) => str_eq(&svc.requester_agent_id, a) || str_eq(&svc.provider_agent_id, a),
            None => true,
        };
        let passes_status = match status {
            Some(st) => st == svc.status,
            None => true,
        };
        if passes_agent && passes_status {
            out.push(ServiceInfo {
                service_id: key.clone(),
                service_type: svc.service_type.clone(),
                status: svc.status,
                payment: svc.payment.dup(),
                created_at: svc.created_at,
            });
        }
        i = i + 1;
    }
    out.truncate(lim);
    ServicesResponse { services: out }
}

/// Whether an agent lists a capability.
pub open spec fn has_capability_spec(s: State, k: Seq<char>, cap: Seq<char>) -> bool {
    views_of(s.agents@[k].capabilities@).contains(cap)
}

fn has_capability(a: &crate::state::Agent, cap: &String) -> (r: bool)
    ensures
        r == views_of(a.capabilities@).contains(cap@),
{
    let n = a.capabilities.len();
    let mut i: usize = 0;
    while i < n
        invariant
            i <= n,
            n == a.capabilities@.len(),
            forall|j: int| 0 <= j < i ==> #[trigger] a.capabilities@[j]@ != cap@,
        decreases n - i,
    {
        if str_eq(&a.capabilities[i], cap) {
            proof {
                assert(views_of(a.capabilities@)[i as int] == cap@);
            }
            return true;
        }
        i = i + 1;
    }
    proof {
        assert forall|j: int| 0 <= j < views_of(a.capabilities@).len() implies views_of(
            a.capabilities@,
        )[j] != cap@ by {
            assert(views_of(a.capabilities@)[j] == a.capabilities@[j]@);
        }
        if views_of(a.capabilities@).contains(cap@) {
            let j = choose|j: int|
                0 <= j < views_of(a.capabilities@).len() && views_of(a.capabilities@)[j] == cap@;
        }
    }
    false
}

/// The first position of a value in a selection.
pub open spec fn first_pos(sel: Seq<Seq<char>>, c: Seq<char>) -> int
    decreases sel.len(),
{
    if sel.len() == 0 {
        0
    } else if sel[0] == c {
        0
    } else {
        1 + first_pos(sel.drop_first(), c)
    }
}

proof fn lemma_first_pos_props(sel: Seq<Seq<char>>, c: Seq<char>)
    requires
        sel.contains(c),
    ensures
        0 <= first_pos(sel, c) < sel.len(),
        sel[first_pos(sel, c)] == c,
        forall|j: int| 0 <= j < first_pos(sel, c) ==> #[trigger] sel[j] != c,
    decreases sel.len(),
{
    if sel.len() > 0 && sel[0] != c {
        assert(sel.drop_first().contains(c)) by {
            let j = choose|j: int| 0 <= j < sel.len() && sel[j] == c;
            assert(sel.drop_first()[j - 1] == sel[j]);
        }
        lemma_first_pos_props(sel.drop_first(), c);
        let fp = first_pos(sel, c);
        assert(sel.drop_first()[fp - 1] == sel[fp]);
        assert forall|j: int| 0 <= j < fp implies #[trigger] sel[j] != c by {
            if j > 0 {
                assert(sel.drop_first()[j - 1] == sel[j]);
            }
        }
    }
}

/// The stored agent ids in `[0, upto)` that list the capability, in
/// storage order.
pub open spec fn capable_agent_keys(s: State, upto: int, cap: Seq<char>) -> Seq<Seq<char>>
    decreases upto,
{
    if upto <= 0 {
        Seq::empty()
    } else {
        let prev = capable_agent_keys(s, upto - 1, cap);
        let k = s.agents.key_seq()[upto - 1];
        if has_capability_spec(s, k, cap) {
            prev.push(k)
        } else {
            prev
        }
    }
}

/// Everything `agents_by_capability` guarantees of its result.
pub open spec fn agents_by_capability_post(state: State, capability: String, start_after: Option<String>, limit: Option<u32>, r: AgentCapabilitiesResponse) -> bool {
    &&& (r.capability@ == capability@)
    &&& (({
            let sel = capable_agent_keys(state, state.agents.spec_len() as int, capability@);
            let skip = match opt_view(start_after) {
                Some(c) => if sel.contains(c) {
                    first_pos(sel, c) + 1
                } else {
                    0
                },
                None => 0,
            };
            let lim = page_limit(limit);
            let count = if sel.len() - skip < lim {
                sel.len() - skip
            } else {
                lim
            };
            &&& r.agents@.len() == count
            &&& forall|j: int|
                0 <= j < count ==> {
                    let k = sel[skip + j];
                    let a = state.agents@[k]@;
                    &&& (#[trigger] r.agents@[j]).agent_id@ == k
                    &&& r.agents@[j].name@ == a.name
                    &&& r.agents@[j].is_active == a.is_active
                    &&& r.agents@[j].balance.amount == state.wallets@[k].balance
                    &&& r.agents@[j].balance.denom@ == state.config.stablecoin_denom@
                    &&& r.agents@[j].reputation_score == a.reputation_score
                }
        }))
}

/// The agents advertising a capability, skipped past the cursor entry when
/// it is present in the selection, then limited.
pub fn agents_by_capability(
    state: &State,
    capability: String,
    start_after: Option<String>,
    limit: Option<u32>,
) -> (r: AgentCapabilitiesResponse)
    requires
        state.wf(),
    ensures
        agents_by_capability_post(*state, capability, start_after, limit, r),
{
    let ghost keys = state.agents.key_seq();
    let lim = page_limit_exec(limit);
    let n = state.agents.len();
    // collect every matching agent id in storage order
    let mut matched: Vec<String> = Vec::new();
    let mut i: usize = 0;
    while i < n
        invariant
            i <= n,
            state.wf(),
            n == state.agents.spec_len(),
            keys == state.agents.key_seq(),
            views_of(matched@) == capable_agent_keys(*state, i as int, capability@),
        decreases n - i,
    {
        proof {
            state.agents.lemma_entries();
        }
        let key = state.agents.key_at(i);
        let a = state.agents.val_at(i);
        if has_capability(a, &capability) {
            matched.push(key.clone());
            proof {
                assert(views_of(matched@) =~= capable_agent_keys(*state, i + 1, capability@));
            }
        } else {
            proof {
                assert(views_of(matched@) =~= capable_agent_keys(*state, i + 1, capability@));
            }
        }
        i = i + 1;
    }
    let ghost sel = capable_agent_keys(*state, n as int, capability@);
    // skip past the cursor entry when it occurs in the selection
    let m = matched.len();
    let skip: usize = match &start_after {
        Some(c) => {
            let mut p: usize = 0;
            let mut found: usize = 0;
            let mut seen = false;
            while p < m
                invariant
                    p <= m,
                    m == matched@.len(),
                    views_of(matched@) == sel,
                    seen ==> 0 <= found < p && sel[found as int] == c@,
                    seen ==> forall|j: int| 0 <= j < found ==> #[trigger] sel[j] != c@,
                    !seen ==> forall|j: int| 0 <= j < p ==> #[trigger] sel[j] != c@,
                    !seen ==> found == 0,
                decreases m - p,
            {
                if !seen && str_eq(&matched[p], c) {
                    proof {
                        assert(views_of(matched@)[p as int] == matched@[p as int]@);
                    }
                    found = p;
                    seen = true;
                }
                i = i;
                p = p + 1;
            }
            proof {
                if seen {
                    assert(sel.contains(c@)) by {
                        assert(sel[found as int] == c@);
                    }
                    lemma_first_pos_props(sel, c@);
                    let fp = first_pos(sel, c@);
                    if fp < found {
                        assert(sel[fp] == c@);
                        assert(false);
                    }
                    if fp > found {
                        assert(sel[found as int] != c@);
                        assert(false);
                    }
                } else {
                    if sel.contains(c@) {
                        let j = choose|j: int| 0 <= j < sel.len() && sel[j] == c@;
                    }
                }
            }
            if seen {
                found + 1
            } else {
                0
            }
        },
        None => 0,
    };
    let last = if m - skip < lim {
        m
    } else {
        skip + lim
    };
    let mut out: Vec<AgentInfo> = Vec::new();
    let mut j: usize = skip;
    while j < last
        invariant
            skip <= j <= last <= m,
            state.wf(),
            m == matched@.len(),
            views_of(matched@) == sel,
            sel == capable_agent_keys(*state, state.agents.spec_len() as int, capability@),
            out@.len() == j - skip,
            forall|q: int|
                0 <= q < j - skip ==> {
                    let k = sel[skip + q];
                    let a = state.agents@[k]@;
                    &&& (#[trigger] out@[q]).agent_id@ == k
                    &&& out@[q].name@ == a.name
                    &&& out@[q].is_active == a.is_active
                    &&& out@[q].balance.amount == state.wallets@[k].balance
                    &&& out@[q].balance.denom@ == state.config.stablecoin_denom@
                    &&& out@[q].reputation_score == a.reputation_score
                },
        decreases last - j,
    {
        let id = &matched[j];
        proof {
            assert(views_of(matched@)[j as int] == matched@[j as int]@);
            lemma_capable_keys_contained(*state, state.agents.spec_len() as int, capability@);
            assert(state.agents@.contains_key(sel[j as int]));
        }
        let a = match state.agents.get(id) {
            Some(a) => a,
            None => {
                proof {
                    assert(false);
                }
                vstd::pervasive::unreached()
            },
        };
        let bal = match state.wallets.get(id) {
            Some(w) => w.balance,
            None => {
                proof {
                    assert(false);
                }
                0
            },
        };
        out.push(AgentInfo {
            agent_id: id.clone(),
            name: a.name.clone(),
            is_active: a.is_active,
            balance: Coin { denom: state.config.stablecoin_denom.clone(), amount: bal },
            reputation_score: a.reputation_score,
        });
        j = j + 1;
    }
    AgentCapabilitiesResponse { capability, agents: out }
}

/// Merge two id lists into one ascending, duplicate-free list.
fn merge_ids(a: &Vec<String>, b: &Vec<String>) -> (r: Vec<String>)
    ensures
        forall|i: int, j: int| 0 <= i < j < r@.len() ==> seq_lt(r@[i]@, r@[j]@),
        forall|x: Seq<char>|
            #[trigger] views_of(r@).contains(x) <==> (views_of(a@).contains(x) || views_of(
                b@,
            ).contains(x)),
{
    let mut m: crate::store::StrMap<()> = crate::store::StrMap::new();
    let na = a.len();
    let mut i: usize = 0;
    while i < na
        invariant
            i <= na,
            na == a@.len(),
            m.wf(),
            forall|x: Seq<char>|
                #[trigger] m@.contains_key(x) <==> exists|j: int| 0 <= j < i && a@[j]@ == x,
        decreases na - i,
    {
        m.insert(a[i].clone(), ());
        proof {
            assert forall|x: Seq<char>| #[trigger] m@.contains_key(x) implies exists|j: int|
                0 <= j < i + 1 && a@[j]@ == x by {
                if x == a@[i as int]@ {
                    assert(0 <= i < i + 1 && a@[i as int]@ == x);
                } else {
                    let j = choose|j: int| 0 <= j < i && a@[j]@ == x;
                }
            }
        }
        i = i + 1;
    }
    let nb = b.len();
    i = 0;
    while i < nb
        invariant
            i <= nb,
            nb == b@.len(),
            m.wf(),
            forall|x: Seq<char>|
                #[trigger] m@.contains_key(x) <==> ((exists|j: int|
                    0 <= j < a@.len() && a@[j]@ == x) || (exists|j: int|
                    0 <= j < i && b@[j]@ == x)),
        decreases nb - i,
    {
        m.insert(b[i].clone(), ());
        proof {
            assert forall|x: Seq<char>| #[trigger] m@.contains_key(x) implies ((exists|j: int|
                0 <= j < a@.len() && a@[j]@ == x) || (exists|j: int|
                0 <= j < i + 1 && b@[j]@ == x)) by {
                if x == b@[i as int]@ {
                    assert(0 <= i < i + 1 && b@[i as int]@ == x);
                }
            }
        }
        i = i + 1;
    }
    let n = m.len();
    let mut out: Vec<String> = Vec::new();
    i = 0;
    while i < n
        invariant
            i <= n,
            m.wf(),
            n == m.spec_len(),
            out@.len() == i,
            forall|j: int| 0 <= j < i ==> #[trigger] out@[j]@ == m.key_seq()[j],
        decreases n - i,
    {
        out.push(m.key_at(i).clone());
        i = i + 1;
    }
    proof {
        m.lemma_entries();
        assert forall|x: Seq<char>| #[trigger] views_of(out@).contains(x) implies (views_of(
            a@,
        ).contains(x) || views_of(b@).contains(x)) by {
            let j = choose|j: int| 0 <= j < views_of(out@).len() && views_of(out@)[j] == x;
            assert(views_of(out@)[j] == out@[j]@);
            assert(m@.contains_key(m.key_seq()[j]));
            if exists|q: int| 0 <= q < a@.len() && a@[q]@ == x {
                let q = choose|q: int| 0 <= q < a@.len() && a@[q]@ == x;
                assert(views_of(a@)[q] == x);
            } else {
                let q = choose|q: int| 0 <= q < b@.len() && b@[q]@ == x;
                assert(views_of(b@)[q] == x);
            }
        }
        assert forall|x: Seq<char>|
            (views_of(a@).contains(x) || views_of(b@).contains(x)) implies #[trigger] views_of(
            out@,
        ).contains(x) by {
            if views_of(a@).contains(x) {
                let q = choose|q: int| 0 <= q < views_of(a@).len() && views_of(a@)[q] == x;
                assert(a@[q]@ == x);
            } else {
                let q = choose|q: int| 0 <= q < views_of(b@).len() && views_of(b@)[q] == x;
                assert(b@[q]@ == x);
            }
            assert(m@.contains_key(x));
            let j = choose|j: int| 0 <= j < m.key_seq().len() && m.key_seq()[j] == x;
            assert(views_of(out@)[j] == x);
        }
        assert forall|i2: int, j2: int| 0 <= i2 < j2 < out@.len() implies seq_lt(
            out@[i2]@,
            out@[j2]@,
        ) by {
            assert(out@[i2]@ == m.key_seq()[i2]);
            assert(out@[j2]@ == m.key_seq()[j2]);
        }
    }
    out
}

/// The id list a role selects: the stored list for one side, or the
/// ascending duplicate-free union for both.
pub open spec fn role_ids_ok(
    buyer_lists: crate::store::StrMap<Vec<String>>,
    seller_lists: crate::store::StrMap<Vec<String>>,
    agent: Seq<char>,
    role: AgentRole,
    ids: Seq<Seq<char>>,
) -> bool {
    match role {
        AgentRole::Buyer => ids == crate::exec_procurement::ids_of(buyer_lists, agent),
        AgentRole::Seller => ids == crate::exec_procurement::ids_of(seller_lists, agent),
        AgentRole::Both => {
            &&& forall|i: int, j: int| 0 <= i < j < ids.len() ==> seq_lt(ids[i], ids[j])
            &&& forall|x: Seq<char>|
                #[trigger] ids.contains(x) <==> (crate::exec_procurement::ids_of(
                    buyer_lists,
                    agent,
                ).contains(x) || crate::exec_procurement::ids_of(seller_lists, agent).contains(x))
        },
    }
}

/// Fetch the id list for a role, merging for both sides.
fn role_ids(
    buyer_lists: &crate::store::StrMap<Vec<String>>,
    seller_lists: &crate::store::StrMap<Vec<String>>,
    agent_id: &String,
    role: AgentRole,
) -> (r: Vec<String>)
    requires
        buyer_lists.wf(),
        seller_lists.wf(),
    ensures
        role_ids_ok(*buyer_lists, *seller_lists, agent_id@, role, views_of(r@)),
{
    let empty: Vec<String> = Vec::new();
    match role {
        AgentRole::Buyer => {
            let r = match buyer_lists.get(agent_id) {
                Some(l) => clone_strings(l),
                None => empty,
            };
            proof {
                assert(views_of(r@) =~= crate::exec_procurement::ids_of(
                    *buyer_lists,
                    agent_id@,
                ));
            }
            r
        },
        AgentRole::Seller => {
            let r = match seller_lists.get(agent_id) {
                Some(l) => clone_strings(l),
                None => empty,
            };
            proof {
                assert(views_of(r@) =~= crate::exec_procurement::ids_of(
                    *seller_lists,
                    agent_id@,
                ));
            }
            r
        },
        AgentRole::Both => {
            let empty2: Vec<String> = Vec::new();
            let merged = match (buyer_lists.get(agent_id), seller_lists.get(agent_id)) {
                (Some(bl), Some(sl)) => merge_ids(bl, sl),
                (Some(bl), None) => merge_ids(bl, &empty),
                (None, Some(sl)) => merge_ids(&empty, sl),
                (None, None) => merge_ids(&empty, &empty2),
            };
            proof {
                if buyer_lists@.contains_key(agent_id@) {
                } else {
                    assert(crate::exec_procurement::ids_of(*buyer_lists, agent_id@)
                        =~= Seq::<Seq<char>>::empty());
                    assert(views_of(empty@) =~= Seq::<Seq<char>>::empty());
                }
                if seller_lists@.contains_key(agent_id@) {
                } else {
                    assert(crate::exec_procurement::ids_of(*seller_lists, agent_id@)
                        =~= Seq::<Seq<char>>::empty());
                }
            }
            merged
        },
    }
}

/// Find the first position in an id list holding an id above the cursor.
fn find_pos_above(ids: &Vec<String>, after: &Option<String>) -> (s: usize)
    ensures
        s == start_index(views_of(ids@), opt_view(*after)),
{
    let ghost keys = views_of(ids@);
    let ghost av = opt_view(*after);
    proof {
        lemma_start_index_props(keys, av);
    }
    let c = match after {
        Some(c) => c,
        None => {
            return 0;
        },
    };
    let n = ids.len();
    let mut i: usize = 0;
    while i < n
        invariant
            i <= n,
            n == ids@.len(),
            keys == views_of(ids@),
            av == opt_view(*after),
            av == Some(c@),
            forall|j: int| 0 <= j < i ==> !seq_lt(c@, #[trigger] keys[j]),
        decreases n - i,
    {
        proof {
            assert(keys[i as int] == ids@[i as int]@);
        }
        if str_lt(c.as_str(), ids[i].as_str()) {
            proof {
                lemma_start_index_props(keys, av);
                let s = start_index(keys, av);
                if s < i {
                    assert(!seq_lt(c@, keys[s]));
                    assert(false);
                }
                if s > i {
                    assert(!seq_lt(c@, keys[i as int]));
                    assert(false);
                }
            }
            return i;
        }
        i = i + 1;
    }
    proof {
        lemma_start_index_props(keys, av);
        let s = start_index(keys, av);
        if s < n {
            assert(!seq_lt(c@, keys[s]));
            assert(false);
        }
    }
    n
}

/// The listed purchase orders in `[from, upto)` that are stored and pass
/// the status filter.
pub open spec fn matching_po_ids(
    s: State,
    ids: Seq<Seq<char>>,
    from: int,
    upto: int,
    status: Option<PurchaseOrderStatus>,
) -> Seq<Seq<char>>
    decreases upto - from,
{
    if upto <= from {
        Seq::empty()
    } else {
        let prev = matching_po_ids(s, ids, from, upto - 1, status);
        let k = ids[upto - 1];
        if s.purchase_orders@.contains_key(k) && (status matches Some(st)
            ==> s.purchase_orders@[k].status == st) {
            prev.push(k)
        } else {
            prev
        }
    }
}

/// Everything `agent_purchase_orders` guarantees of its result.
pub open spec fn agent_purchase_orders_post(state: State, agent_id: String, role: AgentRole, status: Option<PurchaseOrderStatus>, start_after: Option<String>, limit: Option<u32>, r: Result<PurchaseOrdersResponse, ContractError>) -> bool {
    &&& (r is Ok <==> state.agents@.contains_key(agent_id@))
    &&& (r is Err ==> r matches Err(ContractError::AgentNotFound { .. }))
    &&& (r matches Ok(resp) ==> exists|ids: Seq<Seq<char>>|
            {
                &&& #[trigger] role_ids_ok(state.buyer_pos, state.seller_pos, agent_id@, role, ids)
                &&& ({
                    let p = start_index(ids, opt_view(start_after));
                    let sel = matching_po_ids(state, ids, p, ids.len() as int, status);
                    let lim = page_limit(limit);
                    let count = if sel.len() < lim {
                        sel.len() as int
                    } else {
                        lim
                    };
                    &&& resp.purchase_orders@.len() == count
                    &&& forall|j: int|
                        0 <= j < count ==> {
                            let po = state.purchase_orders@[sel[j]]@;
                            &&& (#[trigger] resp.purchase_orders@[j]).po_id@ == po.po_id
                            &&& resp.purchase_orders@[j].buyer_agent_id@ == po.buyer_agent_id
                            &&& resp.purchase_orders@[j].seller_agent_id@ == po.seller_agent_id
                            &&& resp.purchase_orders@[j].total_amount == po.total_amount
                            &&& resp.purchase_orders@[j].status == po.status
                            &&& resp.purchase_orders@[j].created_at == po.created_at
                            &&& resp.purchase_orders@[j].updated_at == po.updated_at
                            &&& opt_view(resp.purchase_orders@[j].invoice_id) == po.invoice_id
                        }
                })
            })
}

/// A page of an agent's purchase orders by role, past the cursor,
/// optionally filtered by status.
pub fn agent_purchase_orders(
    state: &State,
    agent_id: String,
    role: AgentRole,
    status: Option<PurchaseOrderStatus>,
    start_after: Option<String>,
    limit: Option<u32>,
) -> (r: Result<PurchaseOrdersResponse, ContractError>)
    requires
        state.wf(),
    ensures
        agent_purchase_orders_post(*state, agent_id, role, status, start_after, limit, r),
{
    if !state.agents.contains_key(&agent_id) {
        return Err(ContractError::AgentNotFound { agent_id });
    }
    let lim = page_limit_exec(limit);
    let ids = role_ids(&state.buyer_pos, &state.seller_pos, &agent_id, role);
    let ghost idsv = views_of(ids@);
    let p = find_pos_above(&ids, &start_after);
    proof {
        lemma_start_index_props(views_of(ids@), opt_view(start_after));
    }
    let n = ids.len();
    let mut out: Vec<PurchaseOrderInfo> = Vec::new();
    let mut i: usize = p;
    while i < n
        invariant
            p <= i <= n,
            state.wf(),
            n == ids@.len(),
            idsv == views_of(ids@),
            out@.len() == matching_po_ids(*state, idsv, p as int, i as int, status).len(),
            forall|j: int|
                0 <= j < out@.len() ==> {
                    let sel = matching_po_ids(*state, idsv, p as int, i as int, status);
                    let po = state.purchase_orders@[sel[j]]@;
                    &&& (#[trigger] out@[j]).po_id@ == po.po_id
                    &&& out@[j].buyer_agent_id@ == po.buyer_agent_id
                    &&& out@[j].seller_agent_id@ == po.seller_agent_id
                    &&& out@[j].total_amount == po.total_amount
                    &&& out@[j].status == po.status
                    &&& out@[j].created_at == po.created_at
                    &&& out@[j].updated_at == po.updated_at
                    &&& opt_view(out@[j].invoice_id) == po.invoice_id
                },
        decreases n - i,
    {
        proof {
            assert(idsv[i as int] == ids@[i as int]@);
        }
        match state.purchase_orders.get(&ids[i]) {
            Some(po) => {
                let passes = match status {
                    Some(st) => st == po.status,
                    None => true,
                };
                if passes {
                    out.push(po_info_of(po));
                }
            },
            None => {},
        }
        i = i + 1;
    }
    out.truncate(lim);
    proof {
        assert(role_ids_ok(state.buyer_pos, state.seller_pos, agent_id@, role, idsv));
    }
    Ok(PurchaseOrdersResponse { purchase_orders: out })
}

/// The listed invoices in `[from, upto)` that are stored and pass the paid
/// filter.
pub open spec fn matching_invoice_ids(
    s: State,
    ids: Seq<Seq<char>>,
    from: int,
    upto: int,
    paid: Option<bool>,
) -> Seq<Seq<char>>
    decreases upto - from,
{
    if upto <= from {
        Seq::empty()
    } else {
        let prev = matching_invoice_ids(s, ids, from, upto - 1, paid);
        let k = ids[upto - 1];
        if s.invoices@.contains_key(k) && (paid matches Some(pd) ==> s.invoices@[k].paid == pd) {
            prev.push(k)
        } else {
            prev
        }
    }
}

/// Everything `agent_invoices` guarantees of its result.
pub open spec fn agent_invoices_post(state: State, agent_id: String, role: AgentRole, paid: Option<bool>, start_after: Option<String>, limit: Option<u32>, r: Result<InvoicesResponse, ContractError>) -> bool {
    &&& (r is Ok <==> state.agents@.contains_key(agent_id@))
    &&& (r is Err ==> r matches Err(ContractError::AgentNotFound { .. }))
    &&& (r matches Ok(resp) ==> exists|ids: Seq<Seq<char>>|
            {
                &&& #[trigger] role_ids_ok(
                    state.buyer_invoices,
                    state.seller_invoices,
                    agent_id@,
                    role,
                    ids,
                )
                &&& ({
                    let p = start_index(ids, opt_view(start_after));
                    let sel = matching_invoice_ids(state, ids, p, ids.len() as int, paid);
                    let lim = page_limit(limit);
                    let count = if sel.len() < lim {
                        sel.len() as int
                    } else {
                        lim
                    };
                    &&& resp.invoices@.len() == count
                    &&& forall|j: int|
                        0 <= j < count ==> {
                            let v = state.invoices@[sel[j]]@;
                            &&& (#[trigger] resp.invoices@[j]).invoice_id@ == v.invoice_id
                            &&& resp.invoices@[j].po_id@ == v.po_id
                            &&& resp.invoices@[j].seller_agent_id@ == v.seller_agent_id
                            &&& resp.invoices@[j].buyer_agent_id@ == v.buyer_agent_id
                            &&& resp.invoices@[j].subtotal == v.subtotal
                            &&& resp.invoices@[j].tax_amount == v.tax_amount
                            &&& resp.invoices@[j].discount_amount == v.discount_amount
                            &&& resp.invoices@[j].total_amount == v.total_amount
                            &&& resp.invoices@[j].paid == v.paid
                            &&& resp.invoices@[j].paid_at == v.paid_at
                            &&& resp.invoices@[j].created_at == v.created_at
                            &&& resp.invoices@[j].due_date == v.due_date
                        }
                })
            })
}

/// A page of an agent's invoices by role, past the cursor, optionally
/// filtered by payment state.
pub fn agent_invoices(
    state: &State,
    agent_id: String,
    role: AgentRole,
    paid: Option<bool>,
    start_after: Option<String>,
    limit: Option<u32>,
) -> (r: Result<InvoicesResponse, ContractError>)
    requires
        state.wf(),
    ensures
        agent_invoices_post(*state, agent_id, role, paid, start_after, limit, r),
{
    if !state.agents.contains_key(&agent_id) {
        return Err(ContractError::AgentNotFound { agent_id });
    }
    let lim = page_limit_exec(limit);
    let ids = role_ids(&state.buyer_invoices, &state.seller_invoices, &agent_id, role);
    let ghost idsv = views_of(ids@);
    let p = find_pos_above(&ids, &start_after);
    proof {
        lemma_start_index_props(views_of(ids@), opt_view(start_after));
    }
    let n = ids.len();
    let mut out: Vec<InvoiceInfo> = Vec::new();
    let mut i: usize = p;
    while i < n
        invariant
            p <= i <= n,
            state.wf(),
            n == ids@.len(),
            idsv == views_of(ids@),
            out@.len() == matching_invoice_ids(*state, idsv, p as int, i as int, paid).len(),
            forall|j: int|
                0 <= j < out@.len() ==> {
                    let sel = matching_invoice_ids(*state, idsv, p as int, i as int, paid);
                    let v = state.invoices@[sel[j]]@;
                    &&& (#[trigger] out@[j]).invoice_id@ == v.invoice_id
                    &&& out@[j].po_id@ == v.po_id
                    &&& out@[j].seller_agent_id@ == v.seller_agent_id
                    &&& out@[j].buyer_agent_id@ == v.buyer_agent_id
                    &&& out@[j].subtotal == v.subtotal
                    &&& out@[j].tax_amount == v.tax_amount
                    &&& out@[j].discount_amount == v.discount_amount
                    &&& out@[j].total_amount == v.total_amount
                    &&& out@[j].paid == v.paid
                    &&& out@[j].paid_at == v.paid_at
                    &&& out@[j].created_at == v.created_at
                    &&& out@[j].due_date == v.due_date
                },
        decreases n - i,
    {
        proof {
            assert(idsv[i as int] == ids@[i as int]@);
        }
        match state.invoices.get(&ids[i]) {
            Some(v) => {
                let passes = match paid {
                    Some(pd) => pd == v.paid,
                    None => true,
                };
                if passes {
                    out.push(invoice_info_of(v));
                }
            },
            None => {},
        }
        i = i + 1;
    }
    out.truncate(lim);
    proof {
        assert(role_ids_ok(
            state.buyer_invoices,
            state.seller_invoices,
            agent_id@,
            role,
            idsv,
        ));
    }
    Ok(InvoicesResponse { invoices: out })
}

/// Whether a stored message matches a requested type tag; only the chat
/// tags and matching custom labels are compared.
pub open spec fn message_type_matches(
    a: crate::types::MessageTypeV,
    b: crate::types::MessageTypeV,
) -> bool {
    ||| (a is ServiceRequest && b is ServiceRequest)
    ||| (a is ServiceResponse && b is ServiceResponse)
    ||| (a is Negotiation && b is Negotiation)
    ||| (a is Information && b is Information)
    ||| (a is Alert && b is Alert)
    ||| (a matches crate::types::MessageTypeV::Custom(x) && b
        matches crate::types::MessageTypeV::Custom(y) && x == y)
}

/// The listed messages in `[from, upto)` that are stored and match the
/// type filter.
pub open spec fn matching_message_ids(
    s: State,
    ids: Seq<Seq<char>>,
    from: int,
    upto: int,
    mt: Option<crate::types::MessageTypeV>,
) -> Seq<Seq<char>>
    decreases upto - from,
{
    if upto <= from {
        Seq::empty()
    } else {
        let prev = matching_message_ids(s, ids, from, upto - 1, mt);
        let k = ids[upto - 1];
        if s.messages@.contains_key(k) && (mt matches Some(t) ==> message_type_matches(
            s.messages@[k].message_type@,
            t,
        )) {
            prev.push(k)
        } else {
            prev
        }
    }
}

fn message_type_matches_exec(a: &MessageType, b: &MessageType) -> (r: bool)
    ensures
        r == message_type_matches(a@, b@),
{
    match (a, b) {
        (MessageType::ServiceRequest, MessageType::ServiceRequest) => true,
        (MessageType::ServiceResponse, MessageType::ServiceResponse) => true,
        (MessageType::Negotiation, MessageType::Negotiation) => true,
        (MessageType::Information, MessageType::Information) => true,
        (MessageType::Alert, MessageType::Alert) => true,
        (MessageType::Custom(x), MessageType::Custom(y)) => str_eq(x, y),
        _ => false,
    }
}

/// Everything `agent_messages` guarantees of its result.
pub open spec fn agent_messages_post(state: State, agent_id: String, message_type: Option<MessageType>, start_after: Option<String>, limit: Option<u32>, r: Result<MessagesResponse, ContractError>) -> bool {
    &&& (r is Ok <==> state.agents@.contains_key(agent_id@))
    &&& (r is Err ==> r matches Err(ContractError::AgentNotFound { .. }))
    &&& (r matches Ok(resp) ==> exists|ids: Seq<Seq<char>>|
            #![trigger ids.len()]
            {
                &&& (forall|i: int, j: int| 0 <= i < j < ids.len() ==> seq_lt(ids[i], ids[j]))
                &&& (forall|x: Seq<char>|
                    (#[trigger] ids.contains(x)) <==> (crate::exec_procurement::ids_of(
                        state.inboxes,
                        agent_id@,
                    ).contains(x) || crate::exec_procurement::ids_of(
                        state.outboxes,
                        agent_id@,
                    ).contains(x)))
                &&& ({
                    let p = start_index(ids, opt_view(start_after));
                    let mtv = match message_type {
                        Some(ref t) => Some(t@),
                        None => None,
                    };
                    let sel = matching_message_ids(state, ids, p, ids.len() as int, mtv);
                    let lim = page_limit(limit);
                    let count = if sel.len() < lim {
                        sel.len() as int
                    } else {
                        lim
                    };
                    &&& resp.messages@.len() == count
                    &&& forall|j: int|
                        0 <= j < count ==> {
                            let m = state.messages@[sel[j]]@;
                            &&& (#[trigger] resp.messages@[j]).message_id@ == m.message_id
                            &&& resp.messages@[j].from_agent_id@ == m.from_agent_id
                            &&& resp.messages@[j].to_agent_id@ == m.to_agent_id
                            &&& resp.messages@[j].message_type@ == m.message_type
                            &&& resp.messages@[j].content@ == m.content
                            &&& resp.messages@[j].requires_response == m.requires_response
                            &&& resp.messages@[j].timestamp == m.timestamp
                        }
                })
            })
}

/// A page of an agent's messages: the ascending, duplicate-free union of
/// its inbox and outbox, past the cursor, optionally filtered by type.
pub fn agent_messages(
    state: &State,
    agent_id: String,
    message_type: Option<MessageType>,
    start_after: Option<String>,
    limit: Option<u32>,
) -> (r: Result<MessagesResponse, ContractError>)
    requires
        state.wf(),
    ensures
        agent_messages_post(*state, agent_id, message_type, start_after, limit, r),
{
    if !state.agents.contains_key(&agent_id) {
        return Err(ContractError::AgentNotFound { agent_id });
    }
    let lim = page_limit_exec(limit);
    let empty: Vec<String> = Vec::new();
    let empty2: Vec<String> = Vec::new();
    let ids = match (state.inboxes.get(&agent_id), state.outboxes.get(&agent_id)) {
        (Some(il), Some(ol)) => merge_ids(il, ol),
        (Some(il), None) => merge_ids(il, &empty),
        (None, Some(ol)) => merge_ids(&empty, ol),
        (None, None) => merge_ids(&empty, &empty2),
    };
    proof {
        if state.inboxes@.contains_key(agent_id@) {
        } else {
            assert(crate::exec_procurement::ids_of(state.inboxes, agent_id@)
                =~= Seq::<Seq<char>>::empty());
            assert(views_of(empty@) =~= Seq::<Seq<char>>::empty());
        }
        if state.outboxes@.contains_key(agent_id@) {
        } else {
            assert(crate::exec_procurement::ids_of(state.outboxes, agent_id@)
                =~= Seq::<Seq<char>>::empty());
        }
    }
    let ghost idsv = views_of(ids@);
    let p = find_pos_above(&ids, &start_after);
    proof {
        lemma_start_index_props(views_of(ids@), opt_view(start_after));
    }
    let n = ids.len();
    let ghost mtv: Option<crate::types::MessageTypeV> = match message_type {
        Some(ref t) => Some(t@),
        None => None,
    };
    let mut out: Vec<MessageInfo> = Vec::new();
    let mut i: usize = p;
    while i < n
        invariant
            p <= i <= n,
            state.wf(),
            n == ids@.len(),
            idsv == views_of(ids@),
            mtv == (match message_type {
                Some(ref t) => Some(t@),
                None => None,
            }),
            out@.len() == matching_message_ids(*state, idsv, p as int, i as int, mtv).len(),
            forall|j: int|
                0 <= j < out@.len() ==> {
                    let sel = matching_message_ids(*state, idsv, p as int, i as int, mtv);
                    let m = state.messages@[sel[j]]@;
                    &&& (#[trigger] out@[j]).message_id@ == m.message_id
                    &&& out@[j].from_agent_id@ == m.from_agent_id
                    &&& out@[j].to_agent_id@ == m.to_agent_id
                    &&& out@[j].message_type@ == m.message_type
                    &&& out@[j].content@ == m.content
                    &&& out@[j].requires_response == m.requires_response
                    &&& out@[j].timestamp == m.timestamp
                },
        decreases n - i,
    {
        proof {
            assert(idsv[i as int] == ids@[i as int]@);
        }
        match state.messages.get(&ids[i]) {
            Some(m) => {
                let passes = match &message_type {
                    Some(t) => message_type_matches_exec(&m.message_type, t),
                    None => true,
                };
                if passes {
                    out.push(message_info_of(m));
                }
            },
            None => {},
        }
        i = i + 1;
    }
    out.truncate(lim);
    Ok(MessagesResponse { messages: out })
}

proof fn lemma_capable_keys_contained(s: State, upto: int, cap: Seq<char>)
    requires
        s.agents.wf(),
        upto <= s.agents.spec_len(),
    ensures
        forall|j: int|
            0 <= j < capable_agent_keys(s, upto, cap).len() ==> s.agents@.contains_key(
                #[trigger] capable_agent_keys(s, upto, cap)[j],
            ),
    decreases upto,
{
    if upto > 0 {
        lemma_capable_keys_contained(s, upto - 1, cap);
        s.agents.lemma_entries();
        let prev = capable_agent_keys(s, upto - 1, cap);
        let sel = capable_agent_keys(s, upto, cap);
        assert forall|j: int| 0 <= j < sel.len() implies s.agents@.contains_key(
            #[trigger] sel[j],
        ) by {
            if j < prev.len() {
                assert(sel[j] == prev[j]);
            } else {
                assert(sel[j] == s.agents.key_seq()[upto - 1]);
            }
        }
    }
}

} // verus!
