//! Direct agent-to-agent transfers, single and batched.

use vstd::prelude::*;

use crate::errors::ContractError;
use crate::ledger::record_transaction;
use crate::state::{
    same_directory, same_governance, same_messaging, same_procurement, AgentV, AgentWallet,
    State, TransactionRecordV,
};
use crate::text::dec_of;
use crate::types::{
    attrs_of, opt_view, transfers_of, Coin, Response, Transfer, TransactionType,
};
use crate::wallet::lemma_wallet_set_sum;

verus! {

/// When `agent_transfer` accepts.
pub open spec fn agent_transfer_allowed(pre: State, sender: String, time: u64, from_agent_id: String, to_agent_id: String, amount: Coin, memo: Option<String>) -> bool {
    ({
            let f = from_agent_id@;
            let t = to_agent_id@;
            &&& pre.agents@.contains_key(f)
            &&& pre.agents@[f].owner@ == sender@
            &&& f != t
            &&& pre.agents@.contains_key(t)
            &&& pre.agents@[t].is_active
            &&& amount.denom@ == pre.config.stablecoin_denom@
            &&& amount.amount <= pre.wallets@[f].balance - pre.wallets@[f].locked_balance
            &&& pre.wallets@[t].balance + amount.amount <= u128::MAX
            &&& pre.config.next_tx_id < u64::MAX
        })
}

/// The full effect of a successful `agent_transfer`.
pub open spec fn agent_transfer_effect(pre: State, post: State, sender: String, time: u64, from_agent_id: String, to_agent_id: String, amount: Coin, memo: Option<String>, resp: Response) -> bool {
    ({
            let f = from_agent_id@;
            let t = to_agent_id@;
            let amt = amount.amount;
            &&& post.wallets@.dom() == pre.wallets@.dom()
            &&& forall|k: Seq<char>|
                k != f && k != t && pre.wallets@.contains_key(k) ==> post.wallets@[k] == pre.wallets@[k]
            &&& post.wallets@[f] == (AgentWallet {
                balance: (pre.wallets@[f].balance - amt) as u128,
                locked_balance: pre.wallets@[f].locked_balance,
            })
            &&& post.wallets@[t] == (AgentWallet {
                balance: (pre.wallets@[t].balance + amt) as u128,
                locked_balance: pre.wallets@[t].locked_balance,
            })
            &&& post.total_funds() == pre.total_funds()
            &&& post.agents@.dom() == pre.agents@.dom()
            &&& forall|k: Seq<char>|
                k != f && k != t && pre.agents@.contains_key(k) ==> post.agents@[k]
                    == pre.agents@[k]
            &&& post.agents@[f]@ == (AgentV { last_active: time, ..pre.agents@[f]@ })
            &&& post.agents@[t]@ == (AgentV { last_active: time, ..pre.agents@[t]@ })
            &&& post.transactions@.len() == pre.transactions@.len() + 1
            &&& forall|i: int|
                0 <= i < pre.transactions@.len() ==> post.transactions@[i]
                    == #[trigger] pre.transactions@[i]
            &&& post.transactions@.last()@ == (TransactionRecordV {
                tx_id: pre.config.next_tx_id,
                tx_type: TransactionType::Transfer,
                from: Some(f),
                to: Some(t),
                amount: amount@,
                memo: opt_view(memo),
                timestamp: time,
            })
            &&& post.config.next_tx_id == pre.config.next_tx_id + 1
            &&& same_directory(pre, post)
            &&& post.config.next_service_id == pre.config.next_service_id
            &&& post.services == pre.services
            &&& same_messaging(pre, post)
            &&& same_procurement(pre, post)
            &&& same_governance(pre, post)
            &&& attrs_of(resp) == seq![
                ("method"@, "agent_transfer"@),
                ("from"@, f),
                ("to"@, t),
                ("amount"@, dec_of(amt as nat)),
            ]
            &&& transfers_of(resp) == Seq::<crate::types::BankTransferV>::empty()
        })
}

/// Move funds between two distinct active agents and record the transfer.
pub fn agent_transfer(
    state: &mut State,
    sender: &String,
    time: u64,
    from_agent_id: String,
    to_agent_id: String,
    amount: Coin,
    memo: Option<String>,
) -> (r: Result<Response, ContractError>)
    requires
        old(state).wf(),
    ensures
        final(state).wf(),
        r is Err ==> *final(state) == *old(state),
        !old(state).agents@.contains_key(from_agent_id@) <==> (r matches Err(
            ContractError::AgentNotFound { agent_id },
        ) && agent_id@ == from_agent_id@),
        old(state).agents@.contains_key(from_agent_id@) && old(
            state,
        ).agents@[from_agent_id@].owner@ != sender@ <==> (r matches Err(
            ContractError::Unauthorized { .. },
        )),
        old(state).agents@.contains_key(from_agent_id@) && old(
            state,
        ).agents@[from_agent_id@].owner@ == sender@ && from_agent_id@ == to_agent_id@ <==> (
        r matches Err(ContractError::CircularTransfer { .. })),
        r is Ok <==> agent_transfer_allowed(*old(state), *sender, time, from_agent_id, to_agent_id, amount, memo),
        r matches Ok(resp) ==> agent_transfer_effect(*old(state), *final(state), *sender, time, from_agent_id, to_agent_id, amount, memo, resp),
{
    let ghost pre = *old(state);
    let mut from_agent = match state.agents.get(&from_agent_id) {
        Some(a) => {
            if !crate::order::str_eq(&a.owner, sender) {
                return Err(ContractError::Unauthorized {
                    reason: String::from_str("Only the agent owner can transfer"),
                });
            }
            a.dup()
        },
        None => {
            return Err(ContractError::AgentNotFound { agent_id: from_agent_id });
        },
    };
    if crate::order::str_eq(&from_agent_id, &to_agent_id) {
        return Err(ContractError::CircularTransfer {});
    }
    let mut to_agent = match state.agents.get(&to_agent_id) {
        Some(a) => {
            if !a.is_active {
                return Err(ContractError::AgentNotActive { agent_id: to_agent_id });
            }
            a.dup()
        },
        None => {
            return Err(ContractError::AgentNotFound { agent_id: to_agent_id });
        },
    };
    if !crate::order::str_eq(&amount.denom, &state.config.stablecoin_denom) {
        return Err(ContractError::InvalidPayment {});
    }
    let fw = match state.wallets.get(&from_agent_id) {
        Some(w) => *w,
        None => {
            proof {
                assert(false);
            }
            AgentWallet { balance: 0, locked_balance: 0 }
        },
    };
    let available = fw.balance - fw.locked_balance;
    if amount.amount > available {
        return Err(ContractError::InsufficientBalance {
            required: amount.amount,
            available,
        });
    }
    let tw = match state.wallets.get(&to_agent_id) {
        Some(w) => *w,
        None => {
            proof {
                assert(false);
            }
            AgentWallet { balance: 0, locked_balance: 0 }
        },
    };
    if amount.amount > u128::MAX - tw.balance {
        return Err(ContractError::Overflow {});
    }
    if state.config.next_tx_id == u64::MAX {
        return Err(ContractError::Overflow {});
    }
    // all checks passed: apply the transfer
    match crate::wallet::debit(&mut state.wallets, &from_agent_id, amount.amount) {
        Ok(_) => {},
        Err(_) => {
            proof {
                assert(false);
            }
            return Err(ContractError::Overflow {});
        },
    }
    let ghost wallets_mid = state.wallets;
    proof {
        lemma_wallet_set_sum(
            pre.wallets,
            state.wallets,
            from_agent_id@,
            AgentWallet {
                balance: (pre.wallets@[from_agent_id@].balance - amount.amount) as u128,
                locked_balance: pre.wallets@[from_agent_id@].locked_balance,
            },
        );
    }
    match crate::wallet::credit(&mut state.wallets, &to_agent_id, amount.amount) {
        Ok(_) => {},
        Err(_) => {
            proof {
                assert(false);
            }
            return Err(ContractError::Overflow {});
        },
    }
    proof {
        lemma_wallet_set_sum(
            wallets_mid,
            state.wallets,
            to_agent_id@,
            AgentWallet {
                balance: (wallets_mid@[to_agent_id@].balance + amount.amount) as u128,
                locked_balance: wallets_mid@[to_agent_id@].locked_balance,
            },
        );
        assert(state.wallets@.dom() =~= pre.wallets@.dom());
    }
    from_agent.last_active = time;
    state.agents.insert(from_agent_id.clone(), from_agent);
    to_agent.last_active = time;
    state.agents.insert(to_agent_id.clone(), to_agent);
    proof {
        assert(state.agents@.dom() =~= pre.agents@.dom());
    }
    let mut cfg = state.config.dup();
    match record_transaction(
        &mut cfg,
        &mut state.transactions,
        &mut state.agent_transactions,
        TransactionType::Transfer,
        Some(from_agent_id.clone()),
        Some(to_agent_id.clone()),
        amount.dup(),
        memo,
        time,
    ) {
        Ok(_) => {},
        Err(_) => {
            proof {
                assert(false);
            }
            return Err(ContractError::Overflow {});
        },
    }
    state.config = cfg;
    let mut resp = Response::new();
    resp.push_attr("method", String::from_str("agent_transfer"));
    resp.push_attr("from", from_agent_id);
    resp.push_attr("to", to_agent_id);
    resp.push_attr("amount", crate::text::dec_u128(amount.amount));
    proof {
        assert(attrs_of(resp) =~= seq![
            ("method"@, "agent_transfer"@),
            ("from"@, from_agent_id@),
            ("to"@, to_agent_id@),
            ("amount"@, dec_of(amount.amount as nat)),
        ]);
    }
    Ok(resp)
}

/// The sum of all amounts in a batch.
pub open spec fn batch_total(ts: Seq<Transfer>) -> int
    decreases ts.len(),
{
    if ts.len() == 0 {
        0
    } else {
        batch_total(ts.drop_last()) + ts.last().amount.amount
    }
}

/// The sum of the amounts a batch sends to one recipient.
pub open spec fn credit_sum(ts: Seq<Transfer>, k: Seq<char>) -> int
    decreases ts.len(),
{
    if ts.len() == 0 {
        0
    } else {
        credit_sum(ts.drop_last(), k) + if ts.last().to_agent_id@ == k {
            ts.last().amount.amount as int
        } else {
            0
        }
    }
}

/// Every leg of the batch names the settlement asset and an active
/// recipient other than the sender.
pub open spec fn batch_valid(s: State, f: Seq<char>, ts: Seq<Transfer>) -> bool {
    forall|i: int|
        0 <= i < ts.len() ==> {
            let t = #[trigger] ts[i];
            &&& t.amount.denom@ == s.config.stablecoin_denom@
            &&& s.agents@.contains_key(t.to_agent_id@)
            &&& s.agents@[t.to_agent_id@].is_active
            &&& t.to_agent_id@ != f
        }
}

/// No recipient's balance overflows when the whole batch lands.
pub open spec fn batch_credits_fit(s: State, ts: Seq<Transfer>) -> bool {
    forall|k: Seq<char>|
        #[trigger] s.wallets@.contains_key(k) ==> s.wallets@[k].balance + credit_sum(ts, k)
            <= u128::MAX
}

/// A prefix of a batch credits a recipient no more than the whole batch.
proof fn lemma_credit_sum_prefix(ts: Seq<Transfer>, j: int, k: Seq<char>)
    requires
        0 <= j <= ts.len(),
    ensures
        credit_sum(ts.take(j), k) <= credit_sum(ts, k),
    decreases ts.len() - j,
{
    if j == ts.len() {
        assert(ts.take(j) =~= ts);
    } else {
        lemma_credit_sum_prefix(ts, j + 1, k);
        assert(ts.take(j + 1).drop_last() =~= ts.take(j));
        assert(ts.take(j + 1).last() == ts[j]);
    }
}

/// A prefix of a batch totals no more than the whole batch.
proof fn lemma_credit_sum_nonneg(ts: Seq<Transfer>, k: Seq<char>)
    ensures
        credit_sum(ts, k) >= 0,
    decreases ts.len(),
{
    if ts.len() > 0 {
        lemma_credit_sum_nonneg(ts.drop_last(), k);
    }
}

proof fn lemma_batch_total_prefix(ts: Seq<Transfer>, j: int)
    requires
        0 <= j <= ts.len(),
    ensures
        batch_total(ts.take(j)) <= batch_total(ts),
    decreases ts.len() - j,
{
    if j == ts.len() {
        assert(ts.take(j) =~= ts);
    } else {
        lemma_batch_total_prefix(ts, j + 1);
        assert(ts.take(j + 1).drop_last() =~= ts.take(j));
        assert(ts.take(j + 1).last() == ts[j]);
    }
}

proof fn lemma_prefix_push(b: Seq<u64>, v: u64)
    ensures
        b.is_prefix_of(b.push(v)),
{
    assert(b =~= b.push(v).subrange(0, b.len() as int));
}

proof fn lemma_prefix_trans(a: Seq<u64>, b: Seq<u64>, c: Seq<u64>)
    requires
        a.is_prefix_of(b),
        b.is_prefix_of(c),
    ensures
        a.is_prefix_of(c),
{
    assert(a =~= c.subrange(0, a.len() as int));
}

/// When `batch_agent_transfer` accepts.
pub open spec fn batch_agent_transfer_allowed(pre: State, sender: String, time: u64, from_agent_id: String, transfers: Vec<Transfer>) -> bool {
    ({
            let f = from_agent_id@;
            &&& pre.agents@.contains_key(f)
            &&& pre.agents@[f].owner@ == sender@
            &&& batch_valid(pre, f, transfers@)
            &&& batch_total(transfers@) <= u128::MAX
            &&& batch_total(transfers@) <= pre.wallets@[f].balance - pre.wallets@[f].locked_balance
            &&& batch_credits_fit(pre, transfers@)
            &&& pre.config.next_tx_id + transfers@.len() <= u64::MAX
        })
}

/// The full effect of a successful `batch_agent_transfer`.
pub open spec fn batch_agent_transfer_effect(pre: State, post: State, sender: String, time: u64, from_agent_id: String, transfers: Vec<Transfer>, resp: Response) -> bool {
    ({
            let f = from_agent_id@;
            let ts = transfers@;
            &&& post.wallets@.dom() == pre.wallets@.dom()
            &&& post.wallets@[f] == (AgentWallet {
                balance: (pre.wallets@[f].balance - batch_total(ts)) as u128,
                locked_balance: pre.wallets@[f].locked_balance,
            })
            &&& forall|k: Seq<char>|
                k != f && pre.wallets@.contains_key(k) ==> post.wallets@[k]
                    == (AgentWallet {
                    balance: (pre.wallets@[k].balance + credit_sum(ts, k)) as u128,
                    locked_balance: pre.wallets@[k].locked_balance,
                })
            &&& post.total_funds() == pre.total_funds()
            &&& post.agents@.dom() == pre.agents@.dom()
            &&& post.agents@[f]@ == (AgentV { last_active: time, ..pre.agents@[f]@ })
            &&& forall|k: Seq<char>|
                k != f && pre.agents@.contains_key(k) && (exists|j: int|
                    0 <= j < ts.len() && (#[trigger] ts[j]).to_agent_id@ == k) ==> post.agents@[k]@ == (AgentV { last_active: time, ..pre.agents@[k]@ })
            &&& forall|k: Seq<char>|
                k != f && pre.agents@.contains_key(k) && !(exists|j: int|
                    0 <= j < ts.len() && (#[trigger] ts[j]).to_agent_id@ == k) ==> post.agents@[k] == pre.agents@[k]
            &&& post.transactions@.len() == pre.transactions@.len() + ts.len()
            &&& forall|i: int|
                0 <= i < pre.transactions@.len() ==> post.transactions@[i]
                    == #[trigger] pre.transactions@[i]
            &&& forall|i: int|
                0 <= i < ts.len() ==> post.transactions@[pre.transactions@.len()
                    + i]@ == (TransactionRecordV {
                    tx_id: (pre.config.next_tx_id + i) as u64,
                    tx_type: TransactionType::Transfer,
                    from: Some(f),
                    to: Some((#[trigger] ts[i]).to_agent_id@),
                    amount: ts[i].amount@,
                    memo: opt_view(ts[i].memo),
                    timestamp: time,
                })
            &&& post.config.next_tx_id == pre.config.next_tx_id + ts.len()
            &&& forall|k: Seq<char>|
                #[trigger] pre.agent_transactions@.contains_key(k) ==> post.agent_transactions@.contains_key(k) && pre.agent_transactions@[k]@.is_prefix_of(
                    post.agent_transactions@[k]@)
            &&& same_directory(pre, post)
            &&& post.config.next_service_id == pre.config.next_service_id
            &&& post.services == pre.services
            &&& same_messaging(pre, post)
            &&& same_procurement(pre, post)
            &&& same_governance(pre, post)
            &&& attrs_of(resp) == seq![
                ("method"@, "batch_agent_transfer"@),
                ("from"@, f),
                ("total_amount"@, dec_of(batch_total(ts) as nat)),
                ("transfer_count"@, dec_of(ts.len())),
            ]
            &&& transfers_of(resp) == Seq::<crate::types::BankTransferV>::empty()
        })
}

/// Transfer funds from one agent to several recipients in a single atomic
/// call, recording one transaction per leg.
pub fn batch_agent_transfer(
    state: &mut State,
    sender: &String,
    time: u64,
    from_agent_id: String,
    transfers: Vec<Transfer>,
) -> (r: Result<Response, ContractError>)
    requires
        old(state).wf(),
    ensures
        final(state).wf(),
        r is Err ==> *final(state) == *old(state),
        !old(state).agents@.contains_key(from_agent_id@) <==> (r matches Err(
            ContractError::AgentNotFound { agent_id },
        ) && agent_id@ == from_agent_id@),
        old(state).agents@.contains_key(from_agent_id@) && old(
            state,
        ).agents@[from_agent_id@].owner@ != sender@ <==> (r matches Err(
            ContractError::Unauthorized { .. },
        )),
        r is Ok <==> batch_agent_transfer_allowed(*old(state), *sender, time, from_agent_id, transfers),
        r matches Ok(resp) ==> batch_agent_transfer_effect(*old(state), *final(state), *sender, time, from_agent_id, transfers, resp),
{
    let ghost pre = *old(state);
    let ghost f_view = from_agent_id@;
    let ghost ts = transfers@;
    let mut from_agent = match state.agents.get(&from_agent_id) {
        Some(a) => {
            if !crate::order::str_eq(&a.owner, sender) {
                return Err(ContractError::Unauthorized {
                    reason: String::from_str("Only the agent owner can transfer"),
                });
            }
            a.dup()
        },
        None => {
            return Err(ContractError::AgentNotFound { agent_id: from_agent_id });
        },
    };
    let n = transfers.len();
    // first pass: validate every leg and total the amounts
    let mut total: u128 = 0;
    let mut i: usize = 0;
    while i < n
        invariant
            i <= n,
            n == ts.len(),
            ts == transfers@,
            *state == pre,
            pre == *old(state),
            pre.wf(),
            pre.agents@.contains_key(from_agent_id@),
            pre.agents@[from_agent_id@].owner@ == sender@,
            total == batch_total(ts.take(i as int)),
            batch_valid(pre, f_view, ts.take(i as int)),
            f_view == from_agent_id@,
        decreases n - i,
    {
        let t = &transfers[i];
        proof {
            assert(ts.take(i + 1).drop_last() =~= ts.take(i as int));
            assert(ts.take(i + 1).last() == ts[i as int]);
        }
        if !crate::order::str_eq(&t.amount.denom, &state.config.stablecoin_denom) {
            return Err(ContractError::InvalidPayment {});
        }
        match state.agents.get(&t.to_agent_id) {
            Some(a) => {
                if !a.is_active {
                    return Err(ContractError::AgentNotActive {
                        agent_id: t.to_agent_id.clone(),
                    });
                }
            },
            None => {
                return Err(ContractError::AgentNotFound { agent_id: t.to_agent_id.clone() });
            },
        }
        if crate::order::str_eq(&from_agent_id, &t.to_agent_id) {
            return Err(ContractError::CircularTransfer {});
        }
        if t.amount.amount > u128::MAX - total {
            proof {
                lemma_batch_total_prefix(ts, i + 1);
            }
            return Err(ContractError::Overflow {});
        }
        total = total + t.amount.amount;
        i = i + 1;
    }
    proof {
        assert(ts.take(n as int) =~= ts);
    }
    // the sender must cover the total from spendable headroom
    let fw = match state.wallets.get(&from_agent_id) {
        Some(w) => *w,
        None => {
            proof {
                assert(false);
            }
            AgentWallet { balance: 0, locked_balance: 0 }
        },
    };
    let available = fw.balance - fw.locked_balance;
    if total > available {
        return Err(ContractError::InsufficientBalance { required: total, available });
    }
    // second pass: no recipient balance may overflow
    let mut pending: crate::store::StrMap<u128> = crate::store::StrMap::new();
    i = 0;
    while i < n
        invariant
            i <= n,
            n == ts.len(),
            ts == transfers@,
            *state == pre,
            pre == *old(state),
            pre.wf(),
            pending.wf(),
            batch_valid(pre, f_view, ts),
            f_view == from_agent_id@,
            pre.agents@.contains_key(from_agent_id@),
            pre.agents@[from_agent_id@].owner@ == sender@,
            pre.wallets@.contains_key(f_view),
            total == batch_total(ts),
            batch_total(ts) <= pre.wallets@[f_view].balance - pre.wallets@[f_view].locked_balance,
            forall|k: Seq<char>|
                #[trigger] pending@.contains_key(k) ==> pending@[k] == credit_sum(
                    ts.take(i as int),
                    k,
                ),
            forall|k: Seq<char>|
                !pending@.contains_key(k) ==> credit_sum(ts.take(i as int), k) == 0,
            forall|k: Seq<char>|
                #[trigger] pre.wallets@.contains_key(k) ==> pre.wallets@[k].balance + credit_sum(
                    ts.take(i as int),
                    k,
                ) <= u128::MAX,
        decreases n - i,
    {
        let t = &transfers[i];
        proof {
            assert(ts.take(i + 1).drop_last() =~= ts.take(i as int));
            assert(ts.take(i + 1).last() == ts[i as int]);
        }
        let cur: u128 = match pending.get(&t.to_agent_id) {
            Some(v) => *v,
            None => 0,
        };
        let bal = match state.wallets.get(&t.to_agent_id) {
            Some(w) => w.balance,
            None => {
                proof {
                    assert(false);
                }
                0
            },
        };
        if cur > u128::MAX - bal || t.amount.amount > u128::MAX - bal - cur {
            proof {
                lemma_credit_sum_prefix(ts, i + 1, ts[i as int].to_agent_id@);
                assert(pre.wallets@.contains_key(ts[i as int].to_agent_id@));
                assert(pre.wallets@[ts[i as int].to_agent_id@].balance + credit_sum(
                    ts,
                    ts[i as int].to_agent_id@,
                ) > u128::MAX);
            }
            return Err(ContractError::Overflow {});
        }
        pending.insert(t.to_agent_id.clone(), cur + t.amount.amount);
        proof {
            assert forall|k: Seq<char>| #[trigger] pre.wallets@.contains_key(k) implies
                pre.wallets@[k].balance + credit_sum(ts.take(i + 1), k) <= u128::MAX by {
                if k != t.to_agent_id@ {
                    assert(credit_sum(ts.take(i + 1), k) == credit_sum(ts.take(i as int), k));
                }
            }
        }
        i = i + 1;
    }
    proof {
        assert(ts.take(n as int) =~= ts);
    }
    // the transaction log must have room for one record per leg
    if n as u64 > u64::MAX - state.config.next_tx_id || state.config.next_tx_id + (n as u64)
        > u64::MAX {
        return Err(ContractError::Overflow {});
    }
    // all checks passed: apply the batch
    let ghost pre_sum = crate::state::sum_balances(pre.wallets.val_seq());
    let mut cfg = state.config.dup();
    i = 0;
    while i < n
        invariant
            i <= n,
            n == ts.len(),
            ts == transfers@,
            pre == *old(state),
            pre.wf(),
            f_view == from_agent_id@,
            pre.agents@[from_agent_id@].owner@ == sender@,
            total == batch_total(ts),
            batch_total(ts) <= pre.wallets@[f_view].balance - pre.wallets@[f_view].locked_balance,
            batch_valid(pre, f_view, ts),
            forall|k: Seq<char>|
                #[trigger] pre.wallets@.contains_key(k) ==> pre.wallets@[k].balance + credit_sum(
                    ts,
                    k,
                ) <= u128::MAX,
            state.config == pre.config,
            state.agents.wf(),
            state.wallets.wf(),
            state.agent_transactions.wf(),
            state.wallets@.dom() == pre.wallets@.dom(),
            state.wallets@[f_view] == pre.wallets@[f_view],
            pre.wallets@.contains_key(f_view),
            forall|k: Seq<char>|
                k != f_view && pre.wallets@.contains_key(k) ==> #[trigger] state.wallets@[k]
                    == (AgentWallet {
                    balance: (pre.wallets@[k].balance + credit_sum(ts.take(i as int), k)) as u128,
                    locked_balance: pre.wallets@[k].locked_balance,
                }),
            crate::state::sum_balances(state.wallets.val_seq()) == pre_sum + batch_total(
                ts.take(i as int),
            ),
            state.agents@.dom() == pre.agents@.dom(),
            state.agents@[f_view] == pre.agents@[f_view],
            pre.agents@.contains_key(f_view),
            forall|k: Seq<char>|
                k != f_view && pre.agents@.contains_key(k) && (exists|j: int|
                    0 <= j < i && (#[trigger] ts[j]).to_agent_id@ == k) ==> state.agents@[k]@
                    == (AgentV { last_active: time, ..pre.agents@[k]@ }),
            forall|k: Seq<char>|
                k != f_view && pre.agents@.contains_key(k) && !(exists|j: int|
                    0 <= j < i && (#[trigger] ts[j]).to_agent_id@ == k) ==> state.agents@[k]
                    == pre.agents@[k],
            state.transactions@.len() == pre.transactions@.len() + i,
            forall|j: int|
                0 <= j < pre.transactions@.len() ==> state.transactions@[j]
                    == #[trigger] pre.transactions@[j],
            forall|j: int|
                0 <= j < i ==> state.transactions@[pre.transactions@.len() + j]@
                    == (TransactionRecordV {
                    tx_id: (pre.config.next_tx_id + j) as u64,
                    tx_type: TransactionType::Transfer,
                    from: Some(f_view),
                    to: Some((#[trigger] ts[j]).to_agent_id@),
                    amount: ts[j].amount@,
                    memo: opt_view(ts[j].memo),
                    timestamp: time,
                }),
            cfg.next_tx_id == pre.config.next_tx_id + i,
            pre.config.next_tx_id + n <= u64::MAX,
            cfg.admin@ == pre.config.admin@,
            cfg.stablecoin_denom@ == pre.config.stablecoin_denom@,
            cfg.min_agent_balance == pre.config.min_agent_balance,
            cfg.service_fee_percentage == pre.config.service_fee_percentage,
            cfg.next_agent_id == pre.config.next_agent_id,
            cfg.next_service_id == pre.config.next_service_id,
            forall|j: int|
                0 <= j < state.transactions@.len() ==> (#[trigger] state.transactions@[j]).tx_id
                    == j + 1,
            pre.transactions@.len() + 1 == pre.config.next_tx_id,
            forall|k: Seq<char>|
                #[trigger] state.agent_transactions@.contains_key(k) ==> crate::state::tx_list_ok(
                    state.agent_transactions@[k]@,
                    cfg.next_tx_id,
                ),
            forall|k: Seq<char>|
                #[trigger] pre.agent_transactions@.contains_key(k)
                    ==> state.agent_transactions@.contains_key(k)
                    && pre.agent_transactions@[k]@.is_prefix_of(state.agent_transactions@[k]@),
            forall|k: Seq<char>|
                #[trigger] state.wallets@.contains_key(k) ==> crate::state::wallet_ok(
                    state.wallets@[k],
                ),
            state.address_to_id == pre.address_to_id,
            state.services == pre.services,
            state.messages == pre.messages,
            state.message_counter == pre.message_counter,
            state.inboxes == pre.inboxes,
            state.outboxes == pre.outboxes,
            state.purchase_orders == pre.purchase_orders,
            state.po_counter == pre.po_counter,
            state.buyer_pos == pre.buyer_pos,
            state.seller_pos == pre.seller_pos,
            state.invoices == pre.invoices,
            state.invoice_counter == pre.invoice_counter,
            state.buyer_invoices == pre.buyer_invoices,
            state.seller_invoices == pre.seller_invoices,
            state.receipts == pre.receipts,
            state.financials == pre.financials,
        decreases n - i,
    {
        let t = &transfers[i];
        let ghost wallets_before = state.wallets;
        proof {
            assert(ts.take(i + 1).drop_last() =~= ts.take(i as int));
            assert(ts.take(i + 1).last() == ts[i as int]);
            lemma_credit_sum_prefix(ts, i + 1, t.to_agent_id@);
            assert(state.wallets@.contains_key(t.to_agent_id@)) by {
                assert(pre.wallets@.contains_key(t.to_agent_id@));
            }
        }
        proof {
            assert(ts[i as int].to_agent_id@ != f_view);
            lemma_credit_sum_nonneg(ts.take(i as int), t.to_agent_id@);
            lemma_credit_sum_prefix(ts, i as int, t.to_agent_id@);
            assert(state.wallets@[t.to_agent_id@].balance == pre.wallets@[t.to_agent_id@].balance
                + credit_sum(ts.take(i as int), t.to_agent_id@));
            assert(pre.wallets@[t.to_agent_id@].balance + credit_sum(ts, t.to_agent_id@)
                <= u128::MAX);
            assert(state.wallets@[t.to_agent_id@].balance + t.amount.amount <= u128::MAX);
        }
        match crate::wallet::credit(&mut state.wallets, &t.to_agent_id, t.amount.amount) {
            Ok(_) => {},
            Err(_) => {
                proof {
                    assert(false);
                }
                return Err(ContractError::Overflow {});
            },
        }
        proof {
            lemma_wallet_set_sum(
                wallets_before,
                state.wallets,
                t.to_agent_id@,
                AgentWallet {
                    balance: (wallets_before@[t.to_agent_id@].balance + t.amount.amount) as u128,
                    locked_balance: wallets_before@[t.to_agent_id@].locked_balance,
                },
            );
            assert(state.wallets@.dom() =~= pre.wallets@.dom());
        }
        let mut to_agent = match state.agents.get(&t.to_agent_id) {
            Some(a) => a.dup(),
            None => {
                proof {
                    assert(pre.agents@.contains_key(ts[i as int].to_agent_id@));
                    assert(state.agents@.contains_key(ts[i as int].to_agent_id@));
                    assert(false);
                }
                return Err(ContractError::Overflow {});
            },
        };
        to_agent.last_active = time;
        state.agents.insert(t.to_agent_id.clone(), to_agent);
        proof {
            assert(state.agents@.dom() =~= pre.agents@.dom());
        }
        let ghost atx_before = state.agent_transactions;
        let ghost vtx: u64 = cfg.next_tx_id;
        match record_transaction(
            &mut cfg,
            &mut state.transactions,
            &mut state.agent_transactions,
            TransactionType::Transfer,
            Some(from_agent_id.clone()),
            Some(t.to_agent_id.clone()),
            t.amount.dup(),
            crate::types::clone_opt_string(&t.memo),
            time,
        ) {
            Ok(_) => {},
            Err(_) => {
                proof {
                    assert(false);
                }
                return Err(ContractError::Overflow {});
            },
        }
        proof {
            assert forall|k: Seq<char>| #[trigger] pre.agent_transactions@.contains_key(k) implies
                state.agent_transactions@.contains_key(k)
                    && pre.agent_transactions@[k]@.is_prefix_of(
                    state.agent_transactions@[k]@) by {
                if k == f_view || k == ts[i as int].to_agent_id@ {
                    assert(atx_before@.contains_key(k));
                    assert(state.agent_transactions@[k]@ == atx_before@[k]@.push(vtx));
                    lemma_prefix_push(atx_before@[k]@, vtx);
                    lemma_prefix_trans(
                        pre.agent_transactions@[k]@,
                        atx_before@[k]@,
                        state.agent_transactions@[k]@,
                    );
                } else {
                    assert(k != f_view && k != ts[i as int].to_agent_id@);
                    assert(atx_before@.contains_key(k));
                    assert(state.agent_transactions@.contains_key(k));
                    assert(state.agent_transactions@[k] == atx_before@[k]);
                }
            }
        }
        i = i + 1;
    }
    proof {
        assert(ts.take(n as int) =~= ts);
    }
    let ghost wallets_mid = state.wallets;
    match crate::wallet::debit(&mut state.wallets, &from_agent_id, total) {
        Ok(_) => {},
        Err(_) => {
            proof {
                assert(false);
            }
            return Err(ContractError::Overflow {});
        },
    }
    proof {
        lemma_wallet_set_sum(
            wallets_mid,
            state.wallets,
            f_view,
            AgentWallet {
                balance: (wallets_mid@[f_view].balance - total) as u128,
                locked_balance: wallets_mid@[f_view].locked_balance,
            },
        );
        assert(state.wallets@.dom() =~= pre.wallets@.dom());
    }
    from_agent.last_active = time;
    state.agents.insert(from_agent_id.clone(), from_agent);
    proof {
        assert(state.agents@.dom() =~= pre.agents@.dom());
    }
    state.config = cfg;
    let mut resp = Response::new();
    resp.push_attr("method", String::from_str("batch_agent_transfer"));
    resp.push_attr("from", from_agent_id);
    resp.push_attr("total_amount", crate::text::dec_u128(total));
    resp.push_attr("transfer_count", crate::text::dec_u64(n as u64));
    proof {
        assert(attrs_of(resp) =~= seq![
            ("method"@, "batch_agent_transfer"@),
            ("from"@, f_view),
            ("total_amount"@, dec_of(batch_total(ts) as nat)),
            ("transfer_count"@, dec_of(ts.len())),
        ]);
    }
    Ok(resp)
}

} // verus!
