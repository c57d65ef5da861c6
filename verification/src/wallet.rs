//! The wallet ledger: the escrow primitive shared by services and invoices.
//! Every operation is checked; a failed check leaves the map untouched.

use vstd::prelude::*;

use crate::errors::ContractError;
use crate::state::{lemma_sum_update, sum_balances, wallet_ok, AgentWallet};
use crate::store::StrMap;

verus! {

/// The map `post` is `pre` with the existing entry for `k` replaced by `w`;
/// the storage layout is unchanged apart from that slot.
pub open spec fn wallet_set(
    pre: StrMap<AgentWallet>,
    post: StrMap<AgentWallet>,
    k: Seq<char>,
    w: AgentWallet,
) -> bool {
    &&& pre@.contains_key(k)
    &&& post@ == pre@.insert(k, w)
    &&& post.key_seq() == pre.key_seq()
    &&& post.val_seq() == pre.val_seq().update(pre.key_index(k), w)
}

/// Replacing one wallet moves the total by exactly the balance difference.
pub proof fn lemma_wallet_set_sum(
    pre: StrMap<AgentWallet>,
    post: StrMap<AgentWallet>,
    k: Seq<char>,
    w: AgentWallet,
)
    requires
        pre.wf(),
        wallet_set(pre, post, k, w),
    ensures
        sum_balances(post.val_seq()) == sum_balances(pre.val_seq()) - pre@[k].balance + w.balance,
{
    pre.lemma_key_index(k);
    pre.lemma_lens();
    lemma_sum_update(pre.val_seq(), pre.key_index(k), w);
}

/// Store `w` under the existing key `k`.
fn set_wallet(wallets: &mut StrMap<AgentWallet>, k: &String, w: AgentWallet)
    requires
        old(wallets).wf(),
        old(wallets)@.contains_key(k@),
    ensures
        final(wallets).wf(),
        wallet_set(*old(wallets), *final(wallets), k@, w),
{
    wallets.insert(k.clone(), w);
}

/// Add `amount` to an agent's spendable balance.
pub fn credit(wallets: &mut StrMap<AgentWallet>, agent_id: &String, amount: u128) -> (r: Result<
    (),
    ContractError,
>)
    requires
        old(wallets).wf(),
    ensures
        final(wallets).wf(),
        r is Err ==> *final(wallets) == *old(wallets),
        !old(wallets)@.contains_key(agent_id@) <==> (r matches Err(
            ContractError::WalletNotInitialized { .. },
        )),
        old(wallets)@.contains_key(agent_id@) && old(wallets)@[agent_id@].balance + amount
            > u128::MAX <==> (r matches Err(ContractError::Overflow { .. })),
        r is Ok <==> old(wallets)@.contains_key(agent_id@) && old(wallets)@[agent_id@].balance
            + amount <= u128::MAX,
        r is Ok ==> wallet_set(
            *old(wallets),
            *final(wallets),
            agent_id@,
            (AgentWallet {
                balance: (old(wallets)@[agent_id@].balance + amount) as u128,
                locked_balance: old(wallets)@[agent_id@].locked_balance,
            }),
        ),
{
    let w = match wallets.get(agent_id) {
        Some(w) => *w,
        None => {
            return Err(ContractError::WalletNotInitialized {});
        },
    };
    if amount > u128::MAX - w.balance {
        return Err(ContractError::Overflow {});
    }
    set_wallet(
        wallets,
        agent_id,
        AgentWallet { balance: w.balance + amount, locked_balance: w.locked_balance },
    );
    Ok(())
}

/// Remove `amount` from an agent's spendable balance; fails when it exceeds
/// the headroom above the locked funds.
pub fn debit(wallets: &mut StrMap<AgentWallet>, agent_id: &String, amount: u128) -> (r: Result<
    (),
    ContractError,
>)
    requires
        old(wallets).wf(),
        old(wallets)@.contains_key(agent_id@) ==> wallet_ok(old(wallets)@[agent_id@]),
    ensures
        final(wallets).wf(),
        r is Err ==> *final(wallets) == *old(wallets),
        !old(wallets)@.contains_key(agent_id@) <==> (r matches Err(
            ContractError::WalletNotInitialized { .. },
        )),
        old(wallets)@.contains_key(agent_id@) && amount > old(wallets)@[agent_id@].balance
            - old(wallets)@[agent_id@].locked_balance <==> (r matches Err(
            ContractError::InsufficientBalance { required, available },
        ) && required == amount && available == old(wallets)@[agent_id@].balance - old(
            wallets,
        )@[agent_id@].locked_balance),
        r is Ok <==> old(wallets)@.contains_key(agent_id@) && amount <= old(
            wallets,
        )@[agent_id@].balance - old(wallets)@[agent_id@].locked_balance,
        r is Ok ==> wallet_set(
            *old(wallets),
            *final(wallets),
            agent_id@,
            (AgentWallet {
                balance: (old(wallets)@[agent_id@].balance - amount) as u128,
                locked_balance: old(wallets)@[agent_id@].locked_balance,
            }),
        ),
{
    let w = match wallets.get(agent_id) {
        Some(w) => *w,
        None => {
            return Err(ContractError::WalletNotInitialized {});
        },
    };
    let available = w.balance - w.locked_balance;
    if amount > available {
        return Err(ContractError::InsufficientBalance { required: amount, available });
    }
    set_wallet(
        wallets,
        agent_id,
        AgentWallet { balance: w.balance - amount, locked_balance: w.locked_balance },
    );
    Ok(())
}

/// Move `amount` of spendable headroom into escrow.
pub fn lock(wallets: &mut StrMap<AgentWallet>, agent_id: &String, amount: u128) -> (r: Result<
    (),
    ContractError,
>)
    requires
        old(wallets).wf(),
        old(wallets)@.contains_key(agent_id@) ==> wallet_ok(old(wallets)@[agent_id@]),
    ensures
        final(wallets).wf(),
        r is Err ==> *final(wallets) == *old(wallets),
        !old(wallets)@.contains_key(agent_id@) <==> (r matches Err(
            ContractError::WalletNotInitialized { .. },
        )),
        old(wallets)@.contains_key(agent_id@) && amount > old(wallets)@[agent_id@].balance
            - old(wallets)@[agent_id@].locked_balance <==> (r matches Err(
            ContractError::InsufficientBalance { required, available },
        ) && required == amount && available == old(wallets)@[agent_id@].balance - old(
            wallets,
        )@[agent_id@].locked_balance),
        r is Ok <==> old(wallets)@.contains_key(agent_id@) && amount <= old(
            wallets,
        )@[agent_id@].balance - old(wallets)@[agent_id@].locked_balance,
        r is Ok ==> wallet_set(
            *old(wallets),
            *final(wallets),
            agent_id@,
            (AgentWallet {
                balance: old(wallets)@[agent_id@].balance,
                locked_balance: (old(wallets)@[agent_id@].locked_balance + amount) as u128,
            }),
        ),
{
    let w = match wallets.get(agent_id) {
        Some(w) => *w,
        None => {
            return Err(ContractError::WalletNotInitialized {});
        },
    };
    let available = w.balance - w.locked_balance;
    if amount > available {
        return Err(ContractError::InsufficientBalance { required: amount, available });
    }
    set_wallet(
        wallets,
        agent_id,
        AgentWallet { balance: w.balance, locked_balance: w.locked_balance + amount },
    );
    Ok(())
}

/// Consume escrowed funds at service completion: both the balance and the
/// locked amount drop by `amount`.
pub fn unlock_and_settle(wallets: &mut StrMap<AgentWallet>, agent_id: &String, amount: u128) -> (r:
    Result<(), ContractError>)
    requires
        old(wallets).wf(),
        old(wallets)@.contains_key(agent_id@) ==> wallet_ok(old(wallets)@[agent_id@]),
    ensures
        final(wallets).wf(),
        r is Err ==> *final(wallets) == *old(wallets),
        !old(wallets)@.contains_key(agent_id@) <==> (r matches Err(
            ContractError::WalletNotInitialized { .. },
        )),
        old(wallets)@.contains_key(agent_id@) && amount > old(
            wallets,
        )@[agent_id@].locked_balance <==> (r matches Err(ContractError::Overflow { .. })),
        r is Ok <==> old(wallets)@.contains_key(agent_id@) && amount <= old(
            wallets,
        )@[agent_id@].locked_balance,
        r is Ok ==> wallet_set(
            *old(wallets),
            *final(wallets),
            agent_id@,
            (AgentWallet {
                balance: (old(wallets)@[agent_id@].balance - amount) as u128,
                locked_balance: (old(wallets)@[agent_id@].locked_balance - amount) as u128,
            }),
        ),
{
    let w = match wallets.get(agent_id) {
        Some(w) => *w,
        None => {
            return Err(ContractError::WalletNotInitialized {});
        },
    };
    if amount > w.locked_balance {
        return Err(ContractError::Overflow {});
    }
    set_wallet(
        wallets,
        agent_id,
        AgentWallet { balance: w.balance - amount, locked_balance: w.locked_balance - amount },
    );
    Ok(())
}

/// Return escrowed funds to spendable availability at a refund: only the
/// locked amount drops.
pub fn release_lock(wallets: &mut StrMap<AgentWallet>, agent_id: &String, amount: u128) -> (r:
    Result<(), ContractError>)
    requires
        old(wallets).wf(),
    ensures
        final(wallets).wf(),
        r is Err ==> *final(wallets) == *old(wallets),
        !old(wallets)@.contains_key(agent_id@) <==> (r matches Err(
            ContractError::WalletNotInitialized { .. },
        )),
        old(wallets)@.contains_key(agent_id@) && amount > old(
            wallets,
        )@[agent_id@].locked_balance <==> (r matches Err(ContractError::Overflow { .. })),
        r is Ok <==> old(wallets)@.contains_key(agent_id@) && amount <= old(
            wallets,
        )@[agent_id@].locked_balance,
        r is Ok ==> wallet_set(
            *old(wallets),
            *final(wallets),
            agent_id@,
            (AgentWallet {
                balance: old(wallets)@[agent_id@].balance,
                locked_balance: (old(wallets)@[agent_id@].locked_balance - amount) as u128,
            }),
        ),
{
    let w = match wallets.get(agent_id) {
        Some(w) => *w,
        None => {
            return Err(ContractError::WalletNotInitialized {});
        },
    };
    if amount > w.locked_balance {
        return Err(ContractError::Overflow {});
    }
    set_wallet(
        wallets,
        agent_id,
        AgentWallet { balance: w.balance, locked_balance: w.locked_balance - amount },
    );
    Ok(())
}

} // verus!
