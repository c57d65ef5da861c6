//! Agent directory and wallet-management calls: registration, profile
//! updates, deactivation, funding, withdrawal, and governance.

use vstd::prelude::*;

use crate::errors::ContractError;
use crate::ids::{addr_tag, agent_id_text, generate_agent_id, lemma_agent_id_counter,
    valid_agent_name, validate_agent_name};
use crate::ledger::record_transaction;
use crate::state::{
    same_agents, same_governance, same_ledger, same_messaging, same_procurement, same_services,
    same_wallets, Agent, AgentV, AgentWallet, Config, ConfigV, State, TransactionRecordV,
};
use crate::text::dec_of;
use crate::types::{attrs_of, transfers_of, views_of, Coin, Response, TransactionType};
use crate::wallet::wallet_set;

verus! {

/// The funds attached to a call pay exactly one non-zero coin of `denom`.
pub open spec fn funds_ok(funds: Seq<Coin>, denom: Seq<char>) -> bool {
    &&& funds.len() == 1
    &&& funds[0].amount != 0
    &&& funds[0].denom@ == denom
}

/// Require that exactly one non-zero coin of `denom` was attached, and
/// return its amount.
pub fn must_pay(funds: &Vec<Coin>, denom: &String) -> (r: Result<u128, ContractError>)
    ensures
        r matches Ok(a) ==> funds_ok(funds@, denom@) && a == funds@[0].amount,
        funds@.len() == 0 ==> r matches Err(ContractError::NoFunds { .. }),
        funds@.len() > 1 ==> r matches Err(ContractError::MultipleDenoms { .. }),
        funds@.len() == 1 && funds@[0].amount == 0 ==> r matches Err(
            ContractError::NoFunds { .. },
        ),
        funds@.len() == 1 && funds@[0].amount != 0 && funds@[0].denom@ != denom@ ==> r matches Err(
            ContractError::MissingDenom { .. },
        ),
        r is Ok <==> funds_ok(funds@, denom@),
{
    if funds.len() == 0 {
        return Err(ContractError::NoFunds {});
    }
    if funds.len() > 1 {
        return Err(ContractError::MultipleDenoms {});
    }
    let coin = &funds[0];
    if coin.amount == 0 {
        return Err(ContractError::NoFunds {});
    }
    if !crate::order::str_eq(&coin.denom, denom) {
        return Err(ContractError::MissingDenom {});
    }
    Ok(coin.amount)
}

/// The wallet address derived for an agent.
pub open spec fn wallet_addr_text(id: Seq<char>) -> Seq<char> {
    "agent_"@ + id
}

/// Build the initial registry state.
pub fn instantiate(
    sender: String,
    stablecoin_denom: String,
    min_agent_balance: u128,
    service_fee_percentage: u64,
) -> (r: Result<State, ContractError>)
    ensures
        r is Ok <==> service_fee_percentage <= 10000,
        service_fee_percentage > 10000 <==> (r matches Err(ContractError::InvalidConfig { .. })),
        r matches Ok(st) ==> {
            &&& st.wf()
            &&& st.config@ == (ConfigV {
                admin: sender@,
                stablecoin_denom: stablecoin_denom@,
                min_agent_balance,
                service_fee_percentage,
                next_agent_id: 1,
                next_service_id: 1,
                next_tx_id: 1,
            })
            &&& st.agents@ == Map::<Seq<char>, Agent>::empty()
            &&& st.wallets@ == Map::<Seq<char>, AgentWallet>::empty()
            &&& st.services@.dom() == Set::<Seq<char>>::empty()
            &&& st.transactions@.len() == 0
            &&& st.messages@.dom() == Set::<Seq<char>>::empty()
            &&& st.purchase_orders@.dom() == Set::<Seq<char>>::empty()
            &&& st.invoices@.dom() == Set::<Seq<char>>::empty()
            &&& st.message_counter == 0
            &&& st.po_counter == 0
            &&& st.invoice_counter == 0
        },
{
    if service_fee_percentage > 10000 {
        return Err(ContractError::InvalidConfig {
            param: String::from_str("service_fee_percentage cannot exceed 10000 (100%)"),
        });
    }
    let st = State {
        config: Config {
            admin: sender,
            stablecoin_denom,
            min_agent_balance,
            service_fee_percentage,
            next_agent_id: 1,
            next_service_id: 1,
            next_tx_id: 1,
        },
        agents: crate::store::StrMap::new(),
        address_to_id: crate::store::StrMap::new(),
        wallets: crate::store::StrMap::new(),
        services: crate::store::StrMap::new(),
        transactions: Vec::new(),
        agent_transactions: crate::store::StrMap::new(),
        messages: crate::store::StrMap::new(),
        message_counter: 0,
        inboxes: crate::store::StrMap::new(),
        outboxes: crate::store::StrMap::new(),
        purchase_orders: crate::store::StrMap::new(),
        po_counter: 0,
        buyer_pos: crate::store::StrMap::new(),
        seller_pos: crate::store::StrMap::new(),
        invoices: crate::store::StrMap::new(),
        invoice_counter: 0,
        buyer_invoices: crate::store::StrMap::new(),
        seller_invoices: crate::store::StrMap::new(),
        receipts: crate::store::StrMap::new(),
        financials: crate::store::StrMap::new(),
    };
    proof {
        assert(st.services@.dom() =~= Set::<Seq<char>>::empty());
        assert(st.messages@.dom() =~= Set::<Seq<char>>::empty());
        assert(st.purchase_orders@.dom() =~= Set::<Seq<char>>::empty());
        assert(st.invoices@.dom() =~= Set::<Seq<char>>::empty());
    }
    Ok(st)
}

/// When `register_agent` accepts: a legal fresh name, a free counter slot,
/// and, when initial funding is declared, a matching attached payment.
pub open spec fn register_agent_allowed(
    pre: State,
    sender: String,
    funds: Vec<Coin>,
    name: String,
    initial_balance: Option<Coin>,
) -> bool {
    let denom = pre.config.stablecoin_denom@;
    let denom_bad = initial_balance matches Some(c) && c.denom@ != denom;
    &&& valid_agent_name(name@)
    &&& !pre.address_to_id@.contains_key(sender@)
    &&& pre.config.next_agent_id < u64::MAX
    &&& (initial_balance is Some ==> !denom_bad && funds_ok(funds@, denom)
        && pre.config.next_tx_id < u64::MAX)
}

/// The full effect of a successful `register_agent`.
pub open spec fn register_agent_effect(pre: State, post: State, sender: String, funds: Vec<Coin>, time: u64, name: String, description: String, capabilities: Vec<String>, service_endpoints: Vec<String>, initial_balance: Option<Coin>, resp: Response) -> bool {
    ({
            let id = agent_id_text(addr_tag(sender@), pre.config.next_agent_id as nat);
            let amt: u128 = match initial_balance {
                Some(c) => c.amount,
                None => 0,
            };
            let funded = initial_balance is Some;
            &&& !pre.agents@.contains_key(id)
            &&& post.agents@.dom() == pre.agents@.dom().insert(id)
            &&& forall|k: Seq<char>|
                k != id && pre.agents@.contains_key(k) ==> post.agents@[k] == pre.agents@[k]
            &&& post.agents@[id]@ == (AgentV {
                agent_id: id,
                owner: sender@,
                name: name@,
                description: description@,
                capabilities: views_of(capabilities@),
                service_endpoints: views_of(service_endpoints@),
                wallet_address: wallet_addr_text(id),
                is_active: true,
                created_at: time,
                last_active: time,
                total_services_provided: 0,
                total_services_requested: 0,
                reputation_score: 100,
            })
            &&& post.wallets@ == pre.wallets@.insert(
                id,
                (AgentWallet { balance: amt, locked_balance: 0 }),
            )
            &&& post.address_to_id@.dom() == pre.address_to_id@.dom().insert(
                sender@,
            )
            &&& post.address_to_id@[sender@]@ == id
            &&& post.config.next_agent_id == pre.config.next_agent_id + 1
            &&& post.config.stablecoin_denom@ == pre.config.stablecoin_denom@
            &&& post.config.admin@ == pre.config.admin@
            &&& post.config.service_fee_percentage == pre.config.service_fee_percentage
            &&& post.config.next_service_id == pre.config.next_service_id
            &&& (funded ==> {
                &&& post.config.next_tx_id == pre.config.next_tx_id + 1
                &&& post.transactions@.len() == pre.transactions@.len() + 1
                &&& post.transactions@.last()@ == (TransactionRecordV {
                    tx_id: pre.config.next_tx_id,
                    tx_type: TransactionType::Deposit,
                    from: None,
                    to: Some(id),
                    amount: crate::types::CoinV {
                        denom: pre.config.stablecoin_denom@,
                        amount: amt,
                    },
                    memo: Some("Initial agent funding"@),
                    timestamp: time,
                })
            })
            &&& (!funded ==> post.config.next_tx_id == pre.config.next_tx_id
                && post.transactions@ == pre.transactions@)
            &&& post.services == pre.services
            &&& post.messages == pre.messages
            &&& post.purchase_orders == pre.purchase_orders
            &&& post.invoices == pre.invoices
            &&& post.total_funds() == pre.total_funds() + amt
            &&& attrs_of(resp) == seq![
                ("method"@, "register_agent"@),
                ("agent_id"@, id),
                ("wallet_address"@, wallet_addr_text(id)),
                ("initial_balance"@, dec_of(amt as nat)),
            ]
            &&& transfers_of(resp) == Seq::<crate::types::BankTransferV>::empty()
        })
}

/// Register a new agent for the sender, optionally crediting attached
/// initial funding.
pub fn register_agent(
    state: &mut State,
    sender: &String,
    funds: &Vec<Coin>,
    time: u64,
    name: String,
    description: String,
    capabilities: Vec<String>,
    service_endpoints: Vec<String>,
    initial_balance: Option<Coin>,
) -> (r: Result<Response, ContractError>)
    requires
        old(state).wf(),
    ensures
        final(state).wf(),
        r is Err ==> *final(state) == *old(state),
        ({
            let valid = valid_agent_name(name@);
            let taken = old(state).address_to_id@.contains_key(sender@);
            let counter_full = old(state).config.next_agent_id == u64::MAX;
            let denom = old(state).config.stablecoin_denom@;
            let denom_bad = initial_balance matches Some(c) && c.denom@ != denom;
            let needs_pay = initial_balance is Some && !denom_bad;
            let tx_full = old(state).config.next_tx_id == u64::MAX;
            &&& (!valid ==> r matches Err(ContractError::InvalidAgentName { .. }))
            &&& (valid && taken ==> r matches Err(ContractError::AgentAlreadyExists { .. }))
            &&& (valid && !taken && counter_full ==> r matches Err(ContractError::Overflow { .. }))
            &&& (valid && !taken && !counter_full && denom_bad ==> r matches Err(
                ContractError::InvalidPayment { .. },
            ))
            &&& (r is Ok <==> register_agent_allowed(
                *old(state),
                *sender,
                *funds,
                name,
                initial_balance,
            ))
        }),
        r matches Ok(resp) ==> register_agent_effect(*old(state), *final(state), *sender, *funds, time, name, description, capabilities, service_endpoints, initial_balance, resp),
{
    let ghost pre = *old(state);
    if let Err(e) = validate_agent_name(name.as_str()) {
        return Err(e);
    }
    if state.address_to_id.contains_key(sender) {
        return Err(ContractError::AgentAlreadyExists {
            agent_id: String::from_str("Agent already registered for this address"),
        });
    }
    if state.config.next_agent_id == u64::MAX {
        return Err(ContractError::Overflow {});
    }
    // validate funding before touching anything
    let amt: u128 = match &initial_balance {
        Some(coin) => {
            if !crate::order::str_eq(&coin.denom, &state.config.stablecoin_denom) {
                return Err(ContractError::InvalidPayment {});
            }
            match must_pay(funds, &state.config.stablecoin_denom) {
                Ok(_) => {},
                Err(e) => {
                    return Err(e);
                },
            }
            coin.amount
        },
        None => 0,
    };
    let funded = initial_balance.is_some();
    if funded && state.config.next_tx_id == u64::MAX {
        return Err(ContractError::Overflow {});
    }
    let agent_id = generate_agent_id(sender, state.config.next_agent_id);
    let ghost id_view = agent_id@;
    let mut wallet_address = String::from_str("agent_");
    wallet_address.append(agent_id.as_str());
    let mut cfg = state.config.dup();
    cfg.next_agent_id = cfg.next_agent_id + 1;

    if funded {
        let dep = Coin { denom: cfg.stablecoin_denom.clone(), amount: amt };
        match record_transaction(
            &mut cfg,
            &mut state.transactions,
            &mut state.agent_transactions,
            TransactionType::Deposit,
            None,
            Some(agent_id.clone()),
            dep,
            Some(String::from_str("Initial agent funding")),
            time,
        ) {
            Ok(_) => {},
            Err(_) => {
                // unreachable: the counter was checked above
                proof {
                    assert(false);
                }
                return Err(ContractError::Overflow {});
            },
        }
    }
    let agent = Agent {
        agent_id: agent_id.clone(),
        owner: sender.clone(),
        name,
        description,
        capabilities,
        service_endpoints,
        wallet_address: wallet_address.clone(),
        is_active: true,
        created_at: time,
        last_active: time,
        total_services_provided: 0,
        total_services_requested: 0,
        reputation_score: 100,
    };
    proof {
        // the generated id is fresh: any stored agent id has a lower counter
        if pre.agents@.contains_key(id_view) {
            let (t, n) = choose|t: u64, n: nat|
                1 <= n < pre.config.next_agent_id && id_view == agent_id_text(t, n);
            lemma_agent_id_counter(
                t,
                n,
                addr_tag(sender@),
                pre.config.next_agent_id as nat,
            );
        }
        pre.wallets.lemma_entries();
        if pre.wallets@.contains_key(id_view) {
            assert(pre.agents@.contains_key(id_view));
        }
    }
    let ghost sum_pre = crate::state::sum_balances(state.wallets.val_seq());
    proof {
        assert(sum_pre == pre.total_funds());
    }
    state.agents.insert(agent_id.clone(), agent);
    let ghost wallets_mid = state.wallets;
    state.wallets.insert(agent_id.clone(), AgentWallet { balance: amt, locked_balance: 0 });
    proof {
        // the fresh key extends val_seq by one slot, growing the sum by amt
        let wnew = AgentWallet { balance: amt, locked_balance: 0 };
        assert(!wallets_mid@.contains_key(id_view));
        let i = state.wallets.key_index(id_view);
        wallets_mid.lemma_lens();
        crate::state::lemma_sum_insert(wallets_mid.val_seq(), i, wnew);
    }
    state.address_to_id.insert(sender.clone(), agent_id.clone());
    state.config = cfg;

    let mut resp = Response::new();
    resp.push_attr("method", String::from_str("register_agent"));
    resp.push_attr("agent_id", agent_id.clone());
    resp.push_attr("wallet_address", wallet_address);
    resp.push_attr("initial_balance", crate::text::dec_u128(amt));
    proof {
        assert(attrs_of(resp) =~= seq![
            ("method"@, "register_agent"@),
            ("agent_id"@, id_view),
            ("wallet_address"@, wallet_addr_text(id_view)),
            ("initial_balance"@, dec_of(amt as nat)),
        ]);
        assert(final(state).agents@.dom() =~= pre.agents@.dom().insert(id_view));
        assert(final(state).address_to_id@.dom() =~= pre.address_to_id@.dom().insert(sender@));
        // the new state is well formed
        assert forall|k: Seq<char>| #[trigger] final(state).agents@.contains_key(k) implies
            exists|t: u64, n: nat|
                1 <= n < final(state).config.next_agent_id && k == agent_id_text(t, n) by {
            if k == id_view {
                let t0 = addr_tag(sender@);
                let n0 = pre.config.next_agent_id as nat;
                assert(1 <= n0 < final(state).config.next_agent_id && k == agent_id_text(t0, n0));
            } else {
                assert(pre.agents@.contains_key(k));
                let (t, n) = choose|t: u64, n: nat|
                    1 <= n < pre.config.next_agent_id && k == agent_id_text(t, n);
                assert(1 <= n < final(state).config.next_agent_id && k == agent_id_text(t, n));
            }
        }
    }
    Ok(resp)
}

/// When `update_agent` accepts.
pub open spec fn update_agent_allowed(pre: State, sender: String, time: u64, agent_id: String, name: Option<String>, description: Option<String>, capabilities: Option<Vec<String>>, service_endpoints: Option<Vec<String>>) -> bool {
    (pre.agents@.contains_key(agent_id@) && pre.agents@[agent_id@].owner@ == sender@ && (name matches Some(n)
            ==> valid_agent_name(n@)))
}

/// The full effect of a successful `update_agent`.
pub open spec fn update_agent_effect(pre: State, post: State, sender: String, time: u64, agent_id: String, name: Option<String>, description: Option<String>, capabilities: Option<Vec<String>>, service_endpoints: Option<Vec<String>>, resp: Response) -> bool {
    ({
            let a = pre.agents@[agent_id@]@;
            &&& post.agents@.dom() == pre.agents@.dom()
            &&& forall|k: Seq<char>|
                k != agent_id@ && pre.agents@.contains_key(k) ==> post.agents@[k]
                    == pre.agents@[k]
            &&& post.agents@[agent_id@]@ == (AgentV {
                name: match name {
                    Some(ref n) => n@,
                    None => a.name,
                },
                description: match description {
                    Some(ref d) => d@,
                    None => a.description,
                },
                capabilities: match capabilities {
                    Some(ref c) => views_of(c@),
                    None => a.capabilities,
                },
                service_endpoints: match service_endpoints {
                    Some(ref s) => views_of(s@),
                    None => a.service_endpoints,
                },
                last_active: time,
                ..a
            })
            &&& post.address_to_id == pre.address_to_id
            &&& same_wallets(pre, post)
            &&& same_services(pre, post)
            &&& same_ledger(pre, post)
            &&& same_messaging(pre, post)
            &&& same_procurement(pre, post)
            &&& same_governance(pre, post)
            &&& post.config.next_agent_id == pre.config.next_agent_id
            &&& attrs_of(resp) == seq![
                ("method"@, "update_agent"@),
                ("agent_id"@, agent_id@),
            ]
            &&& transfers_of(resp) == Seq::<crate::types::BankTransferV>::empty()
        })
}

/// Update an agent's profile fields; each present option replaces the prior
/// value, and the activity timestamp is refreshed.
pub fn update_agent(
    state: &mut State,
    sender: &String,
    time: u64,
    agent_id: String,
    name: Option<String>,
    description: Option<String>,
    capabilities: Option<Vec<String>>,
    service_endpoints: Option<Vec<String>>,
) -> (r: Result<Response, ContractError>)
    requires
        old(state).wf(),
    ensures
        final(state).wf(),
        r is Err ==> *final(state) == *old(state),
        !old(state).agents@.contains_key(agent_id@) <==> (r matches Err(
            ContractError::AgentNotFound { .. },
        )),
        old(state).agents@.contains_key(agent_id@) && old(state).agents@[agent_id@].owner@
            != sender@ <==> (r matches Err(ContractError::Unauthorized { .. })),
        r is Ok <==> update_agent_allowed(*old(state), *sender, time, agent_id, name, description, capabilities, service_endpoints),
        r is Err && old(state).agents@.contains_key(agent_id@) && old(state).agents@[agent_id@].owner@ == sender@ ==> (r matches Err(
            ContractError::InvalidAgentName { .. },
        )),
        r matches Ok(resp) ==> update_agent_effect(*old(state), *final(state), *sender, time, agent_id, name, description, capabilities, service_endpoints, resp),
{
    let ghost pre = *old(state);
    let mut upd = match state.agents.get(&agent_id) {
        Some(a) => {
            if !crate::order::str_eq(&a.owner, sender) {
                return Err(ContractError::Unauthorized {
                    reason: String::from_str("Only the agent owner can update the agent"),
                });
            }
            a.dup()
        },
        None => {
            return Err(ContractError::AgentNotFound { agent_id });
        },
    };
    if let Some(n) = name {
        if let Err(e) = validate_agent_name(n.as_str()) {
            return Err(e);
        }
        upd.name = n;
    }
    if let Some(d) = description {
        upd.description = d;
    }
    if let Some(c) = capabilities {
        upd.capabilities = c;
    }
    if let Some(s) = service_endpoints {
        upd.service_endpoints = s;
    }
    upd.last_active = time;
    state.agents.insert(agent_id.clone(), upd);
    proof {
        assert(final(state).agents@.dom() =~= pre.agents@.dom());
    }
    let mut resp = Response::new();
    resp.push_attr("method", String::from_str("update_agent"));
    resp.push_attr("agent_id", agent_id);
    proof {
        assert(attrs_of(resp) =~= seq![("method"@, "update_agent"@), ("agent_id"@, agent_id@)]);
    }
    Ok(resp)
}

/// When `deactivate_agent` accepts.
pub open spec fn deactivate_agent_allowed(pre: State, sender: String, time: u64, agent_id: String) -> bool {
    (pre.agents@.contains_key(agent_id@) && pre.agents@[agent_id@].owner@ == sender@ && pre.wallets@[agent_id@].locked_balance
            == 0)
}

/// The full effect of a successful `deactivate_agent`.
pub open spec fn deactivate_agent_effect(pre: State, post: State, sender: String, time: u64, agent_id: String, resp: Response) -> bool {
    ({
            let a = pre.agents@[agent_id@]@;
            &&& post.agents@.dom() == pre.agents@.dom()
            &&& forall|k: Seq<char>|
                k != agent_id@ && pre.agents@.contains_key(k) ==> post.agents@[k]
                    == pre.agents@[k]
            &&& post.agents@[agent_id@]@ == (AgentV {
                is_active: false,
                last_active: time,
                ..a
            })
            &&& post.address_to_id == pre.address_to_id
            &&& same_wallets(pre, post)
            &&& same_services(pre, post)
            &&& same_ledger(pre, post)
            &&& same_messaging(pre, post)
            &&& same_procurement(pre, post)
            &&& same_governance(pre, post)
            &&& post.config.next_agent_id == pre.config.next_agent_id
            &&& attrs_of(resp) == seq![
                ("method"@, "deactivate_agent"@),
                ("agent_id"@, agent_id@),
            ]
            &&& transfers_of(resp) == Seq::<crate::types::BankTransferV>::empty()
        })
}

/// Deactivate an agent; refused while any of its funds sit in escrow.
pub fn deactivate_agent(state: &mut State, sender: &String, time: u64, agent_id: String) -> (r:
    Result<Response, ContractError>)
    requires
        old(state).wf(),
    ensures
        final(state).wf(),
        r is Err ==> *final(state) == *old(state),
        !old(state).agents@.contains_key(agent_id@) <==> (r matches Err(
            ContractError::AgentNotFound { .. },
        )),
        old(state).agents@.contains_key(agent_id@) && old(state).agents@[agent_id@].owner@
            != sender@ <==> (r matches Err(ContractError::Unauthorized { .. })),
        old(state).agents@.contains_key(agent_id@) && old(state).agents@[agent_id@].owner@
            == sender@ && old(state).wallets@[agent_id@].locked_balance != 0 <==> (r matches Err(
            ContractError::CustomError { .. },
        )),
        r is Ok <==> deactivate_agent_allowed(*old(state), *sender, time, agent_id),
        r matches Ok(resp) ==> deactivate_agent_effect(*old(state), *final(state), *sender, time, agent_id, resp),
{
    let ghost pre = *old(state);
    let mut upd = match state.agents.get(&agent_id) {
        Some(a) => {
            if !crate::order::str_eq(&a.owner, sender) {
                return Err(ContractError::Unauthorized {
                    reason: String::from_str("Only the agent owner can deactivate the agent"),
                });
            }
            a.dup()
        },
        None => {
            return Err(ContractError::AgentNotFound { agent_id });
        },
    };
    let locked = match state.wallets.get(&agent_id) {
        Some(w) => w.locked_balance,
        None => {
            proof {
                assert(false);
            }
            0
        },
    };
    if locked != 0 {
        return Err(ContractError::CustomError {
            msg: String::from_str("Cannot deactivate agent with locked balance"),
        });
    }
    upd.is_active = false;
    upd.last_active = time;
    state.agents.insert(agent_id.clone(), upd);
    proof {
        assert(final(state).agents@.dom() =~= pre.agents@.dom());
    }
    let mut resp = Response::new();
    resp.push_attr("method", String::from_str("deactivate_agent"));
    resp.push_attr("agent_id", agent_id);
    proof {
        assert(attrs_of(resp) =~= seq![
            ("method"@, "deactivate_agent"@),
            ("agent_id"@, agent_id@),
        ]);
    }
    Ok(resp)
}

/// When `fund_agent` accepts.
pub open spec fn fund_agent_allowed(pre: State, sender: String, funds: Vec<Coin>, time: u64, agent_id: String) -> bool {
    (pre.agents@.contains_key(agent_id@) && pre.agents@[agent_id@].is_active && funds_ok(funds@, pre.config.stablecoin_denom@)
            && pre.wallets@[agent_id@].balance + funds@[0].amount <= u128::MAX && pre.config.next_tx_id < u64::MAX)
}

/// The full effect of a successful `fund_agent`.
pub open spec fn fund_agent_effect(pre: State, post: State, sender: String, funds: Vec<Coin>, time: u64, agent_id: String, resp: Response) -> bool {
    ({
            let pay = funds@[0].amount;
            &&& wallet_set(
                pre.wallets,
                post.wallets,
                agent_id@,
                (AgentWallet {
                    balance: (pre.wallets@[agent_id@].balance + pay) as u128,
                    locked_balance: pre.wallets@[agent_id@].locked_balance,
                }),
            )
            &&& post.total_funds() == pre.total_funds() + pay
            &&& same_agents(pre, post)
            &&& same_services(pre, post)
            &&& same_messaging(pre, post)
            &&& same_procurement(pre, post)
            &&& same_governance(pre, post)
            &&& post.config.next_tx_id == pre.config.next_tx_id + 1
            &&& post.transactions@.len() == pre.transactions@.len() + 1
            &&& forall|i: int|
                0 <= i < pre.transactions@.len() ==> post.transactions@[i]
                    == #[trigger] pre.transactions@[i]
            &&& post.transactions@.last()@ == (TransactionRecordV {
                tx_id: pre.config.next_tx_id,
                tx_type: TransactionType::Deposit,
                from: None,
                to: Some(agent_id@),
                amount: crate::types::CoinV {
                    denom: pre.config.stablecoin_denom@,
                    amount: pay,
                },
                memo: Some("Funding from "@ + sender@),
                timestamp: time,
            })
            &&& attrs_of(resp) == seq![
                ("method"@, "fund_agent"@),
                ("agent_id"@, agent_id@),
                ("amount"@, dec_of(pay as nat)),
            ]
            &&& transfers_of(resp) == Seq::<crate::types::BankTransferV>::empty()
        })
}

/// Credit attached funds to an active agent's wallet and record the deposit.
pub fn fund_agent(state: &mut State, sender: &String, funds: &Vec<Coin>, time: u64, agent_id: String) -> (r: Result<Response, ContractError>)
    requires
        old(state).wf(),
    ensures
        final(state).wf(),
        r is Err ==> *final(state) == *old(state),
        !old(state).agents@.contains_key(agent_id@) <==> (r matches Err(
            ContractError::AgentNotFound { .. },
        )),
        old(state).agents@.contains_key(agent_id@) && !old(state).agents@[agent_id@].is_active
            <==> (r matches Err(ContractError::AgentNotActive { .. })),
        r is Ok <==> fund_agent_allowed(*old(state), *sender, *funds, time, agent_id),
        r matches Ok(resp) ==> fund_agent_effect(*old(state), *final(state), *sender, *funds, time, agent_id, resp),
{
    let ghost pre = *old(state);
    match state.agents.get(&agent_id) {
        Some(a) => {
            if !a.is_active {
                return Err(ContractError::AgentNotActive { agent_id });
            }
        },
        None => {
            return Err(ContractError::AgentNotFound { agent_id });
        },
    }
    let payment = match must_pay(funds, &state.config.stablecoin_denom) {
        Ok(p) => p,
        Err(e) => {
            return Err(e);
        },
    };
    let bal = match state.wallets.get(&agent_id) {
        Some(w) => w.balance,
        None => {
            proof {
                assert(false);
            }
            0
        },
    };
    if payment > u128::MAX - bal {
        return Err(ContractError::Overflow {});
    }
    if state.config.next_tx_id == u64::MAX {
        return Err(ContractError::Overflow {});
    }
    match crate::wallet::credit(&mut state.wallets, &agent_id, payment) {
        Ok(_) => {},
        Err(_) => {
            proof {
                assert(false);
            }
            return Err(ContractError::Overflow {});
        },
    }
    proof {
        crate::wallet::lemma_wallet_set_sum(
            pre.wallets,
            state.wallets,
            agent_id@,
            AgentWallet {
                balance: (pre.wallets@[agent_id@].balance + payment) as u128,
                locked_balance: pre.wallets@[agent_id@].locked_balance,
            },
        );
    }
    let mut cfg = state.config.dup();
    let mut memo = String::from_str("Funding from ");
    memo.append(sender.as_str());
    let dep = Coin { denom: cfg.stablecoin_denom.clone(), amount: payment };
    match record_transaction(
        &mut cfg,
        &mut state.transactions,
        &mut state.agent_transactions,
        TransactionType::Deposit,
        None,
        Some(agent_id.clone()),
        dep,
        Some(memo),
        time,
    ) {
        Ok(_) => {},
        Err(_) => {
            proof {
                assert(false);
            }
            return Err(ContractError::Overflow {});
        },
    }
    state.config = cfg;
    let mut resp = Response::new();
    resp.push_attr("method", String::from_str("fund_agent"));
    resp.push_attr("agent_id", agent_id);
    resp.push_attr("amount", crate::text::dec_u128(payment));
    proof {
        assert(attrs_of(resp) =~= seq![
            ("method"@, "fund_agent"@),
            ("agent_id"@, agent_id@),
            ("amount"@, dec_of(payment as nat)),
        ]);
    }
    Ok(resp)
}

/// When `withdraw_from_agent` accepts.
pub open spec fn withdraw_from_agent_allowed(pre: State, sender: String, time: u64, agent_id: String, amount: Coin, recipient: String) -> bool {
    (pre.agents@.contains_key(agent_id@) && pre.agents@[agent_id@].owner@ == sender@ && amount.denom@ == pre.config.stablecoin_denom@ && amount.amount <= pre.wallets@[agent_id@].balance
            - pre.wallets@[agent_id@].locked_balance && pre.config.next_tx_id
            < u64::MAX)
}

/// The full effect of a successful `withdraw_from_agent`.
pub open spec fn withdraw_from_agent_effect(pre: State, post: State, sender: String, time: u64, agent_id: String, amount: Coin, recipient: String, resp: Response) -> bool {
    ({
            let amt = amount.amount;
            &&& wallet_set(
                pre.wallets,
                post.wallets,
                agent_id@,
                (AgentWallet {
                    balance: (pre.wallets@[agent_id@].balance - amt) as u128,
                    locked_balance: pre.wallets@[agent_id@].locked_balance,
                }),
            )
            &&& post.total_funds() == pre.total_funds() - amt
            &&& same_agents(pre, post)
            &&& same_services(pre, post)
            &&& same_messaging(pre, post)
            &&& same_procurement(pre, post)
            &&& same_governance(pre, post)
            &&& post.config.next_tx_id == pre.config.next_tx_id + 1
            &&& post.transactions@.len() == pre.transactions@.len() + 1
            &&& forall|i: int|
                0 <= i < pre.transactions@.len() ==> post.transactions@[i]
                    == #[trigger] pre.transactions@[i]
            &&& post.transactions@.last()@ == (TransactionRecordV {
                tx_id: pre.config.next_tx_id,
                tx_type: TransactionType::Withdrawal,
                from: Some(agent_id@),
                to: None,
                amount: crate::types::CoinV { denom: amount.denom@, amount: amt },
                memo: Some("Withdrawal to "@ + recipient@),
                timestamp: time,
            })
            &&& transfers_of(resp) == seq![
                (crate::types::BankTransferV {
                    to_address: recipient@,
                    amount: crate::types::CoinV { denom: amount.denom@, amount: amt },
                }),
            ]
            &&& attrs_of(resp) == seq![
                ("method"@, "withdraw_from_agent"@),
                ("agent_id"@, agent_id@),
                ("amount"@, dec_of(amt as nat)),
                ("recipient"@, recipient@),
            ]
        })
}

/// Withdraw spendable funds from an agent's wallet to an outside address:
/// debits the wallet, emits a transfer instruction, and records the
/// withdrawal.
pub fn withdraw_from_agent(
    state: &mut State,
    sender: &String,
    time: u64,
    agent_id: String,
    amount: Coin,
    recipient: String,
) -> (r: Result<Response, ContractError>)
    requires
        old(state).wf(),
    ensures
        final(state).wf(),
        r is Err ==> *final(state) == *old(state),
        !old(state).agents@.contains_key(agent_id@) <==> (r matches Err(
            ContractError::AgentNotFound { .. },
        )),
        old(state).agents@.contains_key(agent_id@) && old(state).agents@[agent_id@].owner@
            != sender@ <==> (r matches Err(ContractError::Unauthorized { .. })),
        old(state).agents@.contains_key(agent_id@) && old(state).agents@[agent_id@].owner@
            == sender@ && amount.denom@ != old(state).config.stablecoin_denom@ <==> (r matches Err(
            ContractError::InvalidPayment { .. },
        )),
        old(state).agents@.contains_key(agent_id@) && old(state).agents@[agent_id@].owner@
            == sender@ && amount.denom@ == old(state).config.stablecoin_denom@ && amount.amount
            > old(state).wallets@[agent_id@].balance - old(state).wallets@[agent_id@].locked_balance <==> (r matches Err(
            ContractError::InsufficientBalance { required, available },
        ) && required == amount.amount && available == old(state).wallets@[agent_id@].balance
            - old(state).wallets@[agent_id@].locked_balance),
        r is Ok <==> withdraw_from_agent_allowed(*old(state), *sender, time, agent_id, amount, recipient),
        r matches Ok(resp) ==> withdraw_from_agent_effect(*old(state), *final(state), *sender, time, agent_id, amount, recipient, resp),
{
    let ghost pre = *old(state);
    match state.agents.get(&agent_id) {
        Some(a) => {
            if !crate::order::str_eq(&a.owner, sender) {
                return Err(ContractError::Unauthorized {
                    reason: String::from_str("Only the agent owner can withdraw"),
                });
            }
        },
        None => {
            return Err(ContractError::AgentNotFound { agent_id });
        },
    }
    if !crate::order::str_eq(&amount.denom, &state.config.stablecoin_denom) {
        return Err(ContractError::InvalidPayment {});
    }
    let w = match state.wallets.get(&agent_id) {
        Some(w) => *w,
        None => {
            proof {
                assert(false);
            }
            AgentWallet { balance: 0, locked_balance: 0 }
        },
    };
    let available = w.balance - w.locked_balance;
    if amount.amount > available {
        return Err(ContractError::InsufficientBalance {
            required: amount.amount,
            available,
        });
    }
    if state.config.next_tx_id == u64::MAX {
        return Err(ContractError::Overflow {});
    }
    match crate::wallet::debit(&mut state.wallets, &agent_id, amount.amount) {
        Ok(_) => {},
        Err(_) => {
            proof {
                assert(false);
            }
            return Err(ContractError::Overflow {});
        },
    }
    proof {
        crate::wallet::lemma_wallet_set_sum(
            pre.wallets,
            state.wallets,
            agent_id@,
            AgentWallet {
                balance: (pre.wallets@[agent_id@].balance - amount.amount) as u128,
                locked_balance: pre.wallets@[agent_id@].locked_balance,
            },
        );
    }
    let mut cfg = state.config.dup();
    let mut memo = String::from_str("Withdrawal to ");
    memo.append(recipient.as_str());
    let rec_amount = amount.dup();
    match record_transaction(
        &mut cfg,
        &mut state.transactions,
        &mut state.agent_transactions,
        TransactionType::Withdrawal,
        Some(agent_id.clone()),
        None,
        rec_amount,
        Some(memo),
        time,
    ) {
        Ok(_) => {},
        Err(_) => {
            proof {
                assert(false);
            }
            return Err(ContractError::Overflow {});
        },
    }
    state.config = cfg;
    let mut resp = Response::new();
    let amt_text = crate::text::dec_u128(amount.amount);
    resp.push_transfer(recipient.clone(), amount);
    resp.push_attr("method", String::from_str("withdraw_from_agent"));
    resp.push_attr("agent_id", agent_id);
    resp.push_attr("amount", amt_text);
    resp.push_attr("recipient", recipient);
    proof {
        assert(attrs_of(resp) =~= seq![
            ("method"@, "withdraw_from_agent"@),
            ("agent_id"@, agent_id@),
            ("amount"@, dec_of(amount.amount as nat)),
            ("recipient"@, recipient@),
        ]);
        assert(transfers_of(resp) =~= seq![
            (crate::types::BankTransferV {
                to_address: recipient@,
                amount: crate::types::CoinV { denom: amount.denom@, amount: amount.amount },
            }),
        ]);
    }
    Ok(resp)
}

/// When `update_config` accepts.
pub open spec fn update_config_allowed(pre: State, sender: String, stablecoin_denom: Option<String>, min_agent_balance: Option<u128>, service_fee_percentage: Option<u64>) -> bool {
    (sender@ == pre.config.admin@ && (service_fee_percentage matches Some(
            f,
        ) ==> f <= 10000))
}

/// The full effect of a successful `update_config`.
pub open spec fn update_config_effect(pre: State, post: State, sender: String, stablecoin_denom: Option<String>, min_agent_balance: Option<u128>, service_fee_percentage: Option<u64>, resp: Response) -> bool {
    ({
            &&& post.config.stablecoin_denom@ == (match stablecoin_denom {
                Some(ref d) => d@,
                None => pre.config.stablecoin_denom@,
            })
            &&& post.config.min_agent_balance == (match min_agent_balance {
                Some(m) => m,
                None => pre.config.min_agent_balance,
            })
            &&& post.config.service_fee_percentage == (match service_fee_percentage {
                Some(f) => f,
                None => pre.config.service_fee_percentage,
            })
            &&& post.config.admin@ == pre.config.admin@
            &&& post.config.next_agent_id == pre.config.next_agent_id
            &&& post.config.next_service_id == pre.config.next_service_id
            &&& post.config.next_tx_id == pre.config.next_tx_id
            &&& post.agents == pre.agents
            &&& post.address_to_id == pre.address_to_id
            &&& same_wallets(pre, post)
            &&& post.services == pre.services
            &&& post.transactions == pre.transactions
            &&& post.agent_transactions == pre.agent_transactions
            &&& same_messaging(pre, post)
            &&& same_procurement(pre, post)
            &&& attrs_of(resp) == seq![
                ("method"@, "update_config"@),
                ("updated_by"@, sender@),
            ]
            &&& transfers_of(resp) == Seq::<crate::types::BankTransferV>::empty()
        })
}

/// Change governance parameters; admin only, with the fee rate bounded.
pub fn update_config(
    state: &mut State,
    sender: &String,
    stablecoin_denom: Option<String>,
    min_agent_balance: Option<u128>,
    service_fee_percentage: Option<u64>,
) -> (r: Result<Response, ContractError>)
    requires
        old(state).wf(),
    ensures
        final(state).wf(),
        r is Err ==> *final(state) == *old(state),
        sender@ != old(state).config.admin@ <==> (r matches Err(
            ContractError::Unauthorized { .. },
        )),
        sender@ == old(state).config.admin@ && (service_fee_percentage matches Some(f) && f
            > 10000) <==> (r matches Err(ContractError::InvalidConfig { .. })),
        r is Ok <==> update_config_allowed(*old(state), *sender, stablecoin_denom, min_agent_balance, service_fee_percentage),
        r matches Ok(resp) ==> update_config_effect(*old(state), *final(state), *sender, stablecoin_denom, min_agent_balance, service_fee_percentage, resp),
{
    if !crate::order::str_eq(sender, &state.config.admin) {
        return Err(ContractError::Unauthorized {
            reason: String::from_str("Only the admin can update the configuration"),
        });
    }
    if let Some(f) = service_fee_percentage {
        if f > 10000 {
            return Err(ContractError::InvalidConfig {
                param: String::from_str("service_fee_percentage cannot exceed 10000 (100%)"),
            });
        }
    }
    let mut cfg = state.config.dup();
    if let Some(d) = stablecoin_denom {
        cfg.stablecoin_denom = d;
    }
    if let Some(m) = min_agent_balance {
        cfg.min_agent_balance = m;
    }
    if let Some(f) = service_fee_percentage {
        cfg.service_fee_percentage = f;
    }
    state.config = cfg;
    let mut resp = Response::new();
    resp.push_attr("method", String::from_str("update_config"));
    resp.push_attr("updated_by", sender.clone());
    proof {
        assert(attrs_of(resp) =~= seq![("method"@, "update_config"@), ("updated_by"@, sender@)]);
    }
    Ok(resp)
}

} // verus!
