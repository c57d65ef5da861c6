//! The service marketplace: request with escrow lock, completion with fee
//! split, and refund with escrow release.

use vstd::prelude::*;

use crate::errors::ContractError;
use crate::ids::{
    agent_id_text, generate_service_id, lemma_agent_id_text_len, lemma_service_id_counter,
    service_id_text,
};
use crate::ledger::record_transaction;
use crate::state::{
    same_directory, same_governance, same_ledger, same_messaging, same_procurement, AgentV,
    AgentWallet, Service, ServiceV, State, TransactionRecordV,
};
use crate::text::dec_of;
use crate::types::{
    attrs_of, transfers_of, Coin, CoinV, Response, ServiceStatus, TransactionType,
};
use crate::wallet::{lemma_wallet_set_sum, wallet_set};

verus! {

/// The platform fee for a payment at a basis-point rate: the product
/// divided by ten thousand, rounded down.
pub open spec fn fee_of(amount: u128, bps: u64) -> int {
    (amount * bps) / 10000
}

/// Compute the platform fee without overflowing 128-bit arithmetic.
pub fn compute_fee(amount: u128, bps: u64) -> (r: u128)
    requires
        bps <= 10000,
    ensures
        r == fee_of(amount, bps),
        r <= amount,
{
    let q = amount / 10000;
    let rem = amount % 10000;
    let b = bps as u128;
    proof {
        assert(q * b <= q * 10000) by (nonlinear_arith)
            requires
                b <= 10000,
                q >= 0,
        ;
        assert(amount == 10000 * q + rem) by {
            vstd::arithmetic::div_mod::lemma_fundamental_div_mod(
                amount as int,
                10000,
            );
        }
        assert(rem * b < 10000 * 10000) by (nonlinear_arith)
            requires
                rem < 10000,
                b <= 10000,
                rem >= 0,
        ;
        assert((rem * b) / 10000 <= rem) by (nonlinear_arith)
            requires
                rem >= 0,
                0 <= b <= 10000,
        ;
    }
    let low = (rem * b) / 10000;
    let r = q * b + low;
    proof {
        let y = rem * b;
        vstd::arithmetic::div_mod::lemma_fundamental_div_mod(
            y as int,
            10000,
        );
        assert(amount * b == 10000 * (q * b + y / 10000) + y % 10000) by (nonlinear_arith)
            requires
                amount == 10000 * q + rem,
                y == rem * b,
        ;
        vstd::arithmetic::div_mod::lemma_fundamental_div_mod_converse(
            (amount * b) as int,
            10000,
            q * b + y / 10000,
            y % 10000,
        );
    }
    r
}

/// When `request_service` accepts.
pub open spec fn request_service_allowed(pre: State, sender: String, time: u64, requester_agent_id: String, provider_agent_id: String, service_type: String, payment: Coin, parameters: String) -> bool {
    ({
            let req = requester_agent_id@;
            let prov = provider_agent_id@;
            &&& pre.agents@.contains_key(req)
            &&& pre.agents@[req].owner@ == sender@
            &&& pre.agents@[req].is_active
            &&& pre.agents@.contains_key(prov)
            &&& pre.agents@[prov].is_active
            &&& payment.denom@ == pre.config.stablecoin_denom@
            &&& payment.amount <= pre.wallets@[req].balance - pre.wallets@[req].locked_balance
            &&& pre.config.next_service_id < u64::MAX
            &&& pre.agents@[req].total_services_requested < u64::MAX
        })
}

/// The full effect of a successful `request_service`.
pub open spec fn request_service_effect(pre: State, post: State, sender: String, time: u64, requester_agent_id: String, provider_agent_id: String, service_type: String, payment: Coin, parameters: String, resp: Response) -> bool {
    ({
            let req = requester_agent_id@;
            let prov = provider_agent_id@;
            let sid = service_id_text(req, prov, pre.config.next_service_id as nat);
            &&& !pre.services@.contains_key(sid)
            &&& post.services@.dom() == pre.services@.dom().insert(sid)
            &&& forall|k: Seq<char>|
                k != sid && pre.services@.contains_key(k) ==> post.services@[k]
                    == pre.services@[k]
            &&& post.services@[sid]@ == (ServiceV {
                service_id: sid,
                requester_agent_id: req,
                provider_agent_id: prov,
                service_type: service_type@,
                payment: payment@,
                status: ServiceStatus::Pending,
                parameters: parameters@,
                result: None,
                created_at: time,
                completed_at: None,
                escrow_released: false,
            })
            &&& wallet_set(
                pre.wallets,
                post.wallets,
                req,
                (AgentWallet {
                    balance: pre.wallets@[req].balance,
                    locked_balance: (pre.wallets@[req].locked_balance
                        + payment.amount) as u128,
                }),
            )
            &&& post.total_funds() == pre.total_funds()
            &&& post.agents@.dom() == pre.agents@.dom()
            &&& forall|k: Seq<char>|
                k != req && k != prov && pre.agents@.contains_key(k) ==> post.agents@[k] == pre.agents@[k]
            &&& post.agents@[prov]@ == (AgentV {
                last_active: time,
                ..pre.agents@[prov]@
            })
            &&& (req != prov ==> post.agents@[req]@ == (AgentV {
                total_services_requested: (pre.agents@[req].total_services_requested
                    + 1) as u64,
                last_active: time,
                ..pre.agents@[req]@
            }))
            &&& post.config.next_service_id == pre.config.next_service_id + 1
            &&& post.address_to_id == pre.address_to_id
            &&& post.config.next_agent_id == pre.config.next_agent_id
            &&& same_ledger(pre, post)
            &&& same_messaging(pre, post)
            &&& same_procurement(pre, post)
            &&& same_governance(pre, post)
            &&& attrs_of(resp) == seq![
                ("method"@, "request_service"@),
                ("service_id"@, sid),
                ("requester"@, req),
                ("provider"@, prov),
                ("payment"@, dec_of(payment.amount as nat)),
            ]
            &&& transfers_of(resp) == Seq::<crate::types::BankTransferV>::empty()
        })
}

/// Request a service from a provider, locking the payment in the
/// requester's wallet and allocating a fresh service id.
pub fn request_service(
    state: &mut State,
    sender: &String,
    time: u64,
    requester_agent_id: String,
    provider_agent_id: String,
    service_type: String,
    payment: Coin,
    parameters: String,
) -> (r: Result<Response, ContractError>)
    requires
        old(state).wf(),
    ensures
        final(state).wf(),
        r is Err ==> *final(state) == *old(state),
        !old(state).agents@.contains_key(requester_agent_id@) <==> (r matches Err(
            ContractError::AgentNotFound { agent_id },
        ) && agent_id@ == requester_agent_id@),
        old(state).agents@.contains_key(requester_agent_id@) && old(state).agents@[requester_agent_id@].owner@ != sender@ <==> (r matches Err(
            ContractError::Unauthorized { .. },
        )),
        r is Ok <==> request_service_allowed(*old(state), *sender, time, requester_agent_id, provider_agent_id, service_type, payment, parameters),
        r matches Ok(resp) ==> request_service_effect(*old(state), *final(state), *sender, time, requester_agent_id, provider_agent_id, service_type, payment, parameters, resp),
{
    let ghost pre = *old(state);
    let mut requester = match state.agents.get(&requester_agent_id) {
        Some(a) => {
            if !crate::order::str_eq(&a.owner, sender) {
                return Err(ContractError::Unauthorized {
                    reason: String::from_str("Only the agent owner can request services"),
                });
            }
            a.dup()
        },
        None => {
            return Err(ContractError::AgentNotFound { agent_id: requester_agent_id });
        },
    };
    if !requester.is_active {
        return Err(ContractError::AgentNotActive { agent_id: requester_agent_id });
    }
    let mut provider = match state.agents.get(&provider_agent_id) {
        Some(a) => a.dup(),
        None => {
            return Err(ContractError::AgentNotFound { agent_id: provider_agent_id });
        },
    };
    if !provider.is_active {
        return Err(ContractError::AgentNotActive { agent_id: provider_agent_id });
    }
    if !crate::order::str_eq(&payment.denom, &state.config.stablecoin_denom) {
        return Err(ContractError::InvalidPayment {});
    }
    let w = match state.wallets.get(&requester_agent_id) {
        Some(w) => *w,
        None => {
            proof {
                assert(false);
            }
            AgentWallet { balance: 0, locked_balance: 0 }
        },
    };
    let available = w.balance - w.locked_balance;
    if payment.amount > available {
        return Err(ContractError::InsufficientBalance {
            required: payment.amount,
            available,
        });
    }
    if state.config.next_service_id == u64::MAX {
        return Err(ContractError::Overflow {});
    }
    if requester.total_services_requested == u64::MAX {
        return Err(ContractError::Overflow {});
    }
    proof {
        // agent ids are long enough to slice the service-id windows from
        let (t1, n1) = choose|t: u64, n: nat|
            1 <= n < pre.config.next_agent_id && requester_agent_id@ == agent_id_text(t, n);
        lemma_agent_id_text_len(t1, n1);
        let (t2, n2) = choose|t: u64, n: nat|
            1 <= n < pre.config.next_agent_id && provider_agent_id@ == agent_id_text(t, n);
        lemma_agent_id_text_len(t2, n2);
    }
    let service_id = generate_service_id(
        requester_agent_id.as_str(),
        provider_agent_id.as_str(),
        state.config.next_service_id,
    );
    let ghost sid_view = service_id@;
    proof {
        // the generated service id is fresh
        if pre.services@.contains_key(sid_view) {
            let (a, b, n) = choose|a: Seq<char>, b: Seq<char>, n: nat|
                1 <= n < pre.config.next_service_id && sid_view == service_id_text(a, b, n);
            lemma_service_id_counter(
                a,
                b,
                n,
                requester_agent_id@,
                provider_agent_id@,
                pre.config.next_service_id as nat,
            );
        }
    }
    match crate::wallet::lock(&mut state.wallets, &requester_agent_id, payment.amount) {
        Ok(_) => {},
        Err(_) => {
            proof {
                assert(false);
            }
            return Err(ContractError::Overflow {});
        },
    }
    proof {
        lemma_wallet_set_sum(
            pre.wallets,
            state.wallets,
            requester_agent_id@,
            AgentWallet {
                balance: pre.wallets@[requester_agent_id@].balance,
                locked_balance: (pre.wallets@[requester_agent_id@].locked_balance
                    + payment.amount) as u128,
            },
        );
    }
    let service = Service {
        service_id: service_id.clone(),
        requester_agent_id: requester_agent_id.clone(),
        provider_agent_id: provider_agent_id.clone(),
        service_type,
        payment: payment.dup(),
        status: ServiceStatus::Pending,
        parameters,
        result: None,
        created_at: time,
        completed_at: None,
        escrow_released: false,
    };
    state.services.insert(service_id.clone(), service);
    requester.total_services_requested = requester.total_services_requested + 1;
    requester.last_active = time;
    state.agents.insert(requester_agent_id.clone(), requester);
    provider.last_active = time;
    state.agents.insert(provider_agent_id.clone(), provider);
    let mut cfg = state.config.dup();
    cfg.next_service_id = cfg.next_service_id + 1;
    state.config = cfg;
    proof {
        assert(final(state).services@.dom() =~= pre.services@.dom().insert(sid_view));
        assert(final(state).agents@.dom() =~= pre.agents@.dom());
        // every stored service id still sits below the bumped counter
        assert forall|k: Seq<char>| #[trigger] final(state).services@.contains_key(k) implies
            exists|a: Seq<char>, b: Seq<char>, n: nat|
                1 <= n < final(state).config.next_service_id && k == service_id_text(a, b, n) by {
            if k == sid_view {
                let n0 = pre.config.next_service_id as nat;
                assert(1 <= n0 < final(state).config.next_service_id && k == service_id_text(
                    requester_agent_id@,
                    provider_agent_id@,
                    n0,
                ));
            } else {
                assert(pre.services@.contains_key(k));
                let (a, b, n) = choose|a: Seq<char>, b: Seq<char>, n: nat|
                    1 <= n < pre.config.next_service_id && k == service_id_text(a, b, n);
                assert(1 <= n < final(state).config.next_service_id && k == service_id_text(
                    a,
                    b,
                    n,
                ));
            }
        }
    }
    let mut resp = Response::new();
    resp.push_attr("method", String::from_str("request_service"));
    resp.push_attr("service_id", service_id);
    resp.push_attr("requester", requester_agent_id);
    resp.push_attr("provider", provider_agent_id);
    resp.push_attr("payment", crate::text::dec_u128(payment.amount));
    proof {
        assert(attrs_of(resp) =~= seq![
            ("method"@, "request_service"@),
            ("service_id"@, sid_view),
            ("requester"@, requester_agent_id@),
            ("provider"@, provider_agent_id@),
            ("payment"@, dec_of(payment.amount as nat)),
        ]);
    }
    Ok(resp)
}

/// When `complete_service` accepts: the service exists and is pending, the
/// caller owns the provider, and every balance, counter, and log update
/// fits.
pub open spec fn complete_service_allowed(s: State, sid: Seq<char>, sender: Seq<char>) -> bool {
    let svc = s.services@[sid];
    let req = svc.requester_agent_id@;
    let prov = svc.provider_agent_id@;
    let pay = svc.payment.amount;
    let fee = fee_of(pay, s.config.service_fee_percentage);
    let needed: int = if fee > 0 {
        2
    } else {
        1
    };
    &&& s.services@.contains_key(sid)
    &&& svc.status == ServiceStatus::Pending
    &&& s.agents@[prov].owner@ == sender
    &&& pay <= s.wallets@[req].locked_balance
    &&& (req != prov ==> s.wallets@[prov].balance + (pay - fee) <= u128::MAX)
    &&& s.agents@[prov].total_services_provided < u64::MAX
    &&& s.config.next_tx_id + needed <= u64::MAX
}

/// When `refund_service` accepts: the service exists and is pending, the
/// caller owns one of the two parties, and the release and record fit.
pub open spec fn refund_service_allowed(s: State, sid: Seq<char>, sender: Seq<char>) -> bool {
    let svc = s.services@[sid];
    let req = svc.requester_agent_id@;
    let prov = svc.provider_agent_id@;
    &&& s.services@.contains_key(sid)
    &&& svc.status == ServiceStatus::Pending
    &&& (sender == s.agents@[req].owner@ || sender == s.agents@[prov].owner@)
    &&& svc.payment.amount <= s.wallets@[req].locked_balance
    &&& s.config.next_tx_id < u64::MAX
}

/// The full effect of a successful `complete_service`.
pub open spec fn complete_service_effect(pre: State, post: State, sender: String, time: u64, service_id: String, result: String, resp: Response) -> bool {
    ({
            let svc = pre.services@[service_id@];
            let req = svc.requester_agent_id@;
            let prov = svc.provider_agent_id@;
            let pay = svc.payment.amount;
            let fee = fee_of(pay, pre.config.service_fee_percentage);
            let pp = pay - fee;
            let a = pre.agents@[prov]@;
            &&& post.services@.dom() == pre.services@.dom()
            &&& forall|k: Seq<char>|
                k != service_id@ && pre.services@.contains_key(k) ==> post.services@[k] == pre.services@[k]
            &&& post.services@[service_id@]@ == (ServiceV {
                status: ServiceStatus::Completed,
                result: Some(result@),
                completed_at: Some(time),
                escrow_released: true,
                ..svc@
            })
            &&& post.wallets@.dom() == pre.wallets@.dom()
            &&& forall|k: Seq<char>|
                k != req && k != prov && pre.wallets@.contains_key(k) ==> post.wallets@[k] == pre.wallets@[k]
            &&& (req != prov ==> post.wallets@[req] == (AgentWallet {
                balance: (pre.wallets@[req].balance - pay) as u128,
                locked_balance: (pre.wallets@[req].locked_balance - pay) as u128,
            }) && post.wallets@[prov] == (AgentWallet {
                balance: (pre.wallets@[prov].balance + pp) as u128,
                locked_balance: pre.wallets@[prov].locked_balance,
            }))
            &&& (req == prov ==> post.wallets@[req] == (AgentWallet {
                balance: (pre.wallets@[req].balance - fee) as u128,
                locked_balance: (pre.wallets@[req].locked_balance - pay) as u128,
            }))
            &&& post.total_funds() == pre.total_funds() - fee
            &&& post.agents@.dom() == pre.agents@.dom()
            &&& forall|k: Seq<char>|
                k != prov && pre.agents@.contains_key(k) ==> post.agents@[k]
                    == pre.agents@[k]
            &&& post.agents@[prov]@ == (AgentV {
                total_services_provided: (a.total_services_provided + 1) as u64,
                reputation_score: if a.reputation_score + 5 > u64::MAX {
                    u64::MAX
                } else {
                    (a.reputation_score + 5) as u64
                },
                last_active: time,
                ..a
            })
            &&& post.transactions@.len() == pre.transactions@.len() + (if fee > 0 {
                2int
            } else {
                1
            })
            &&& forall|i: int|
                0 <= i < pre.transactions@.len() ==> post.transactions@[i]
                    == #[trigger] pre.transactions@[i]
            &&& post.transactions@[pre.transactions@.len() as int]@
                == (TransactionRecordV {
                tx_id: pre.config.next_tx_id,
                tx_type: TransactionType::ServicePayment,
                from: Some(req),
                to: Some(prov),
                amount: CoinV { denom: pre.config.stablecoin_denom@, amount: pp as u128 },
                memo: Some("Service "@ + service_id@ + " completed"@),
                timestamp: time,
            })
            &&& (fee > 0 ==> post.transactions@[pre.transactions@.len() as int + 1]@
                == (TransactionRecordV {
                tx_id: (pre.config.next_tx_id + 1) as u64,
                tx_type: TransactionType::Fee,
                from: Some(req),
                to: None,
                amount: CoinV {
                    denom: pre.config.stablecoin_denom@,
                    amount: fee as u128,
                },
                memo: Some("Service fee for "@ + service_id@),
                timestamp: time,
            }))
            &&& post.config.next_tx_id == pre.config.next_tx_id + (if fee > 0 {
                2int
            } else {
                1
            })
            &&& same_directory(pre, post)
            &&& post.config.next_service_id == pre.config.next_service_id
            &&& same_messaging(pre, post)
            &&& same_procurement(pre, post)
            &&& same_governance(pre, post)
            &&& attrs_of(resp) == seq![
                ("method"@, "complete_service"@),
                ("service_id"@, service_id@),
                ("provider_payment"@, dec_of(pp as nat)),
                ("fee"@, dec_of(fee as nat)),
            ]
            &&& transfers_of(resp) == Seq::<crate::types::BankTransferV>::empty()
        })
}

/// Complete a pending service: consume the escrowed payment, pay the
/// provider net of the platform fee, and reward the provider.
pub fn complete_service(
    state: &mut State,
    sender: &String,
    time: u64,
    service_id: String,
    result: String,
) -> (r: Result<Response, ContractError>)
    requires
        old(state).wf(),
    ensures
        final(state).wf(),
        r is Err ==> *final(state) == *old(state),
        !old(state).services@.contains_key(service_id@) <==> (r matches Err(
            ContractError::ServiceNotFound { .. },
        )),
        old(state).services@.contains_key(service_id@) && old(state).services@[service_id@].status
            != ServiceStatus::Pending <==> (r matches Err(
            ContractError::InvalidServiceStatus { .. },
        )),
        old(state).services@.contains_key(service_id@) && old(state).services@[service_id@].status
            == ServiceStatus::Pending && old(state).agents@[old(
            state,
        ).services@[service_id@].provider_agent_id@].owner@ != sender@ <==> (r matches Err(
            ContractError::Unauthorized { .. },
        )),
        r is Ok <==> complete_service_allowed(*old(state), service_id@, sender@),
        r matches Ok(resp) ==> complete_service_effect(*old(state), *final(state), *sender, time, service_id, result, resp),
{
    let ghost pre = *old(state);
    let svc = match state.services.get(&service_id) {
        Some(s) => {
            if !matches!(s.status, ServiceStatus::Pending) {
                return Err(ContractError::InvalidServiceStatus { service_id });
            }
            s.dup()
        },
        None => {
            return Err(ContractError::ServiceNotFound { service_id });
        },
    };
    let mut provider = match state.agents.get(&svc.provider_agent_id) {
        Some(a) => {
            if !crate::order::str_eq(&a.owner, sender) {
                return Err(ContractError::Unauthorized {
                    reason: String::from_str("Only the provider owner can complete the service"),
                });
            }
            a.dup()
        },
        None => {
            proof {
                assert(false);
            }
            return Err(ContractError::Unauthorized {
                reason: String::from_str("Only the provider owner can complete the service"),
            });
        },
    };
    let pay = svc.payment.amount;
    let fee = compute_fee(pay, state.config.service_fee_percentage);
    let pp = pay - fee;
    let same_agent = crate::order::str_eq(&svc.requester_agent_id, &svc.provider_agent_id);
    let reqw = match state.wallets.get(&svc.requester_agent_id) {
        Some(w) => *w,
        None => {
            proof {
                assert(false);
            }
            AgentWallet { balance: 0, locked_balance: 0 }
        },
    };
    if pay > reqw.locked_balance {
        return Err(ContractError::Overflow {});
    }
    if !same_agent {
        let provw = match state.wallets.get(&svc.provider_agent_id) {
            Some(w) => *w,
            None => {
                proof {
                    assert(false);
                }
                AgentWallet { balance: 0, locked_balance: 0 }
            },
        };
        if pp > u128::MAX - provw.balance {
            return Err(ContractError::Overflow {});
        }
    }
    if provider.total_services_provided == u64::MAX {
        return Err(ContractError::Overflow {});
    }
    let needed: u64 = if fee > 0 {
        2
    } else {
        1
    };
    if state.config.next_tx_id > u64::MAX - needed {
        return Err(ContractError::Overflow {});
    }
    // all checks passed: apply the transition
    let mut upd = svc.dup();
    upd.status = ServiceStatus::Completed;
    upd.result = Some(result);
    upd.completed_at = Some(time);
    upd.escrow_released = true;
    state.services.insert(service_id.clone(), upd);
    match crate::wallet::unlock_and_settle(&mut state.wallets, &svc.requester_agent_id, pay) {
        Ok(_) => {},
        Err(_) => {
            proof {
                assert(false);
            }
            return Err(ContractError::Overflow {});
        },
    }
    let ghost wallets_mid = state.wallets;
    proof {
        lemma_wallet_set_sum(
            pre.wallets,
            state.wallets,
            svc.requester_agent_id@,
            AgentWallet {
                balance: (pre.wallets@[svc.requester_agent_id@].balance - pay) as u128,
                locked_balance: (pre.wallets@[svc.requester_agent_id@].locked_balance
                    - pay) as u128,
            },
        );
    }
    match crate::wallet::credit(&mut state.wallets, &svc.provider_agent_id, pp) {
        Ok(_) => {},
        Err(_) => {
            proof {
                assert(false);
            }
            return Err(ContractError::Overflow {});
        },
    }
    proof {
        lemma_wallet_set_sum(
            wallets_mid,
            state.wallets,
            svc.provider_agent_id@,
            AgentWallet {
                balance: (wallets_mid@[svc.provider_agent_id@].balance + pp) as u128,
                locked_balance: wallets_mid@[svc.provider_agent_id@].locked_balance,
            },
        );
        assert(state.wallets@.dom() =~= pre.wallets@.dom());
    }
    provider.total_services_provided = provider.total_services_provided + 1;
    provider.reputation_score = provider.reputation_score.saturating_add(5);
    provider.last_active = time;
    state.agents.insert(svc.provider_agent_id.clone(), provider);
    proof {
        assert(state.agents@.dom() =~= pre.agents@.dom());
        assert(state.services@.dom() =~= pre.services@.dom());
    }
    let mut cfg = state.config.dup();
    let mut memo1 = String::from_str("Service ");
    memo1.append(service_id.as_str());
    memo1.append(" completed");
    let pay_coin = Coin { denom: cfg.stablecoin_denom.clone(), amount: pp };
    match record_transaction(
        &mut cfg,
        &mut state.transactions,
        &mut state.agent_transactions,
        TransactionType::ServicePayment,
        Some(svc.requester_agent_id.clone()),
        Some(svc.provider_agent_id.clone()),
        pay_coin,
        Some(memo1),
        time,
    ) {
        Ok(_) => {},
        Err(_) => {
            proof {
                assert(false);
            }
            return Err(ContractError::Overflow {});
        },
    }
    if fee > 0 {
        let mut memo2 = String::from_str("Service fee for ");
        memo2.append(service_id.as_str());
        let fee_coin = Coin { denom: cfg.stablecoin_denom.clone(), amount: fee };
        match record_transaction(
            &mut cfg,
            &mut state.transactions,
            &mut state.agent_transactions,
            TransactionType::Fee,
            Some(svc.requester_agent_id.clone()),
            None,
            fee_coin,
            Some(memo2),
            time,
        ) {
            Ok(_) => {},
            Err(_) => {
                proof {
                    assert(false);
                }
                return Err(ContractError::Overflow {});
            },
        }
    }
    state.config = cfg;
    let mut resp = Response::new();
    resp.push_attr("method", String::from_str("complete_service"));
    resp.push_attr("service_id", service_id);
    resp.push_attr("provider_payment", crate::text::dec_u128(pp));
    resp.push_attr("fee", crate::text::dec_u128(fee));
    proof {
        assert(attrs_of(resp) =~= seq![
            ("method"@, "complete_service"@),
            ("service_id"@, service_id@),
            ("provider_payment"@, dec_of(pp as nat)),
            ("fee"@, dec_of(fee as nat)),
        ]);
    }
    Ok(resp)
}

/// The full effect of a successful `refund_service`.
pub open spec fn refund_service_effect(pre: State, post: State, sender: String, time: u64, service_id: String, reason: String, resp: Response) -> bool {
    ({
            let svc = pre.services@[service_id@];
            let req = svc.requester_agent_id@;
            let prov = svc.provider_agent_id@;
            let pay = svc.payment.amount;
            let penalized = sender@ == pre.agents@[prov].owner@;
            &&& post.services@.dom() == pre.services@.dom()
            &&& forall|k: Seq<char>|
                k != service_id@ && pre.services@.contains_key(k) ==> post.services@[k] == pre.services@[k]
            &&& post.services@[service_id@]@ == (ServiceV {
                status: ServiceStatus::Refunded,
                result: Some(reason@),
                completed_at: Some(time),
                escrow_released: true,
                ..svc@
            })
            &&& wallet_set(
                pre.wallets,
                post.wallets,
                req,
                (AgentWallet {
                    balance: pre.wallets@[req].balance,
                    locked_balance: (pre.wallets@[req].locked_balance - pay) as u128,
                }),
            )
            &&& post.total_funds() == pre.total_funds()
            &&& post.agents@.dom() == pre.agents@.dom()
            &&& forall|k: Seq<char>|
                k != prov && pre.agents@.contains_key(k) ==> post.agents@[k]
                    == pre.agents@[k]
            &&& (penalized ==> post.agents@[prov]@ == (AgentV {
                reputation_score: if pre.agents@[prov]@.reputation_score >= 2 {
                    (pre.agents@[prov]@.reputation_score - 2) as u64
                } else {
                    0
                },
                ..pre.agents@[prov]@
            }))
            &&& (!penalized ==> post.agents@[prov] == pre.agents@[prov])
            &&& post.transactions@.len() == pre.transactions@.len() + 1
            &&& forall|i: int|
                0 <= i < pre.transactions@.len() ==> post.transactions@[i]
                    == #[trigger] pre.transactions@[i]
            &&& post.transactions@.last()@ == (TransactionRecordV {
                tx_id: pre.config.next_tx_id,
                tx_type: TransactionType::ServiceRefund,
                from: Some(prov),
                to: Some(req),
                amount: svc.payment@,
                memo: Some("Refund: "@ + reason@),
                timestamp: time,
            })
            &&& post.config.next_tx_id == pre.config.next_tx_id + 1
            &&& same_directory(pre, post)
            &&& post.config.next_service_id == pre.config.next_service_id
            &&& same_messaging(pre, post)
            &&& same_procurement(pre, post)
            &&& same_governance(pre, post)
            &&& attrs_of(resp) == seq![
                ("method"@, "refund_service"@),
                ("service_id"@, service_id@),
                ("reason"@, reason@),
            ]
            &&& transfers_of(resp) == Seq::<crate::types::BankTransferV>::empty()
        })
}

/// Refund a pending service: release the escrowed payment back to the
/// requester; a provider-initiated refund costs reputation.
pub fn refund_service(
    state: &mut State,
    sender: &String,
    time: u64,
    service_id: String,
    reason: String,
) -> (r: Result<Response, ContractError>)
    requires
        old(state).wf(),
    ensures
        final(state).wf(),
        r is Err ==> *final(state) == *old(state),
        !old(state).services@.contains_key(service_id@) <==> (r matches Err(
            ContractError::ServiceNotFound { .. },
        )),
        old(state).services@.contains_key(service_id@) && old(state).services@[service_id@].status
            != ServiceStatus::Pending <==> (r matches Err(
            ContractError::InvalidServiceStatus { .. },
        )),
        old(state).services@.contains_key(service_id@) && old(state).services@[service_id@].status
            == ServiceStatus::Pending && sender@ != old(state).agents@[old(
            state,
        ).services@[service_id@].requester_agent_id@].owner@ && sender@ != old(state).agents@[old(
            state,
        ).services@[service_id@].provider_agent_id@].owner@ <==> (r matches Err(
            ContractError::Unauthorized { .. },
        )),
        r is Ok <==> refund_service_allowed(*old(state), service_id@, sender@),
        r matches Ok(resp) ==> refund_service_effect(*old(state), *final(state), *sender, time, service_id, reason, resp),
{
    let ghost pre = *old(state);
    let svc = match state.services.get(&service_id) {
        Some(s) => {
            if !matches!(s.status, ServiceStatus::Pending) {
                return Err(ContractError::InvalidServiceStatus { service_id });
            }
            s.dup()
        },
        None => {
            return Err(ContractError::ServiceNotFound { service_id });
        },
    };
    let requester_owner_ok = match state.agents.get(&svc.requester_agent_id) {
        Some(a) => crate::order::str_eq(&a.owner, sender),
        None => {
            proof {
                assert(false);
            }
            false
        },
    };
    let mut provider = match state.agents.get(&svc.provider_agent_id) {
        Some(a) => a.dup(),
        None => {
            proof {
                assert(false);
            }
            return Err(ContractError::Unauthorized {
                reason: String::from_str("Only the requester or provider can refund"),
            });
        },
    };
    let provider_owner_ok = crate::order::str_eq(&provider.owner, sender);
    if !requester_owner_ok && !provider_owner_ok {
        return Err(ContractError::Unauthorized {
            reason: String::from_str("Only the requester or provider can refund"),
        });
    }
    let pay = svc.payment.amount;
    let reqw = match state.wallets.get(&svc.requester_agent_id) {
        Some(w) => *w,
        None => {
            proof {
                assert(false);
            }
            AgentWallet { balance: 0, locked_balance: 0 }
        },
    };
    if pay > reqw.locked_balance {
        return Err(ContractError::Overflow {});
    }
    if state.config.next_tx_id == u64::MAX {
        return Err(ContractError::Overflow {});
    }
    // all checks passed: apply the transition
    let mut upd = svc.dup();
    upd.status = ServiceStatus::Refunded;
    upd.result = Some(reason.clone());
    upd.completed_at = Some(time);
    upd.escrow_released = true;
    state.services.insert(service_id.clone(), upd);
    match crate::wallet::release_lock(&mut state.wallets, &svc.requester_agent_id, pay) {
        Ok(_) => {},
        Err(_) => {
            proof {
                assert(false);
            }
            return Err(ContractError::Overflow {});
        },
    }
    proof {
        lemma_wallet_set_sum(
            pre.wallets,
            state.wallets,
            svc.requester_agent_id@,
            AgentWallet {
                balance: pre.wallets@[svc.requester_agent_id@].balance,
                locked_balance: (pre.wallets@[svc.requester_agent_id@].locked_balance
                    - pay) as u128,
            },
        );
    }
    if provider_owner_ok {
        provider.reputation_score = provider.reputation_score.saturating_sub(2);
        state.agents.insert(svc.provider_agent_id.clone(), provider);
    }
    proof {
        assert(state.agents@.dom() =~= pre.agents@.dom());
        assert(state.services@.dom() =~= pre.services@.dom());
    }
    let mut cfg = state.config.dup();
    let mut memo = String::from_str("Refund: ");
    memo.append(reason.as_str());
    match record_transaction(
        &mut cfg,
        &mut state.transactions,
        &mut state.agent_transactions,
        TransactionType::ServiceRefund,
        Some(svc.provider_agent_id.clone()),
        Some(svc.requester_agent_id.clone()),
        svc.payment.dup(),
        Some(memo),
        time,
    ) {
        Ok(_) => {},
        Err(_) => {
            proof {
                assert(false);
            }
            return Err(ContractError::Overflow {});
        },
    }
    state.config = cfg;
    let mut resp = Response::new();
    resp.push_attr("method", String::from_str("refund_service"));
    resp.push_attr("service_id", service_id);
    resp.push_attr("reason", reason);
    proof {
        assert(attrs_of(resp) =~= seq![
            ("method"@, "refund_service"@),
            ("service_id"@, service_id@),
            ("reason"@, reason@),
        ]);
    }
    Ok(resp)
}

} // verus!
