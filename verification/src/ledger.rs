//! The append-only transaction log, keyed by a monotonically increasing id,
//! with a per-participant secondary index.

use vstd::prelude::*;

use crate::errors::ContractError;
use crate::state::{tx_list_ok, Config, TransactionRecord, TransactionRecordV};
use crate::store::StrMap;
use crate::types::{opt_view, Coin, TransactionType};

verus! {

/// `post` is `pre` with `v` appended to the lists of the named participants
/// and nothing else changed.
pub open spec fn tx_indexed(
    pre: StrMap<Vec<u64>>,
    post: StrMap<Vec<u64>>,
    from: Option<Seq<char>>,
    to: Option<Seq<char>>,
    v: u64,
) -> bool {
    &&& forall|x: Seq<char>|
        Some(x) != from && Some(x) != to ==> ((#[trigger] post@.contains_key(x))
            <==> pre@.contains_key(x)) && (pre@.contains_key(x) ==> post@[x] == pre@[x])
    &&& (from matches Some(f) ==> post@.contains_key(f) && post@[f]@ == (if pre@.contains_key(f) {
        pre@[f]@.push(v)
    } else {
        seq![v]
    }))
    &&& (to matches Some(t) ==> post@.contains_key(t) && post@[t]@ == (if pre@.contains_key(t) {
        pre@[t]@.push(v)
    } else {
        seq![v]
    }))
}

/// Copy a vector of transaction ids.
pub fn clone_u64s(v: &Vec<u64>) -> (r: Vec<u64>)
    ensures
        r@ == v@,
{
    let mut r: Vec<u64> = Vec::new();
    let n = v.len();
    let mut i: usize = 0;
    while i < n
        invariant
            i <= n,
            n == v@.len(),
            r@ == v@.subrange(0, i as int),
        decreases n - i,
    {
        r.push(v[i]);
        i = i + 1;
    }
    proof {
        assert(r@ =~= v@);
    }
    r
}

/// Append one id to an agent's transaction index.
fn index_tx(agent_transactions: &mut StrMap<Vec<u64>>, agent_id: &String, tx_id: u64)
    requires
        old(agent_transactions).wf(),
    ensures
        final(agent_transactions).wf(),
        final(agent_transactions)@.dom() == old(agent_transactions)@.dom().insert(agent_id@),
        final(agent_transactions)@[agent_id@]@ == (if old(agent_transactions)@.contains_key(
            agent_id@,
        ) {
            old(agent_transactions)@[agent_id@]@.push(tx_id)
        } else {
            seq![tx_id]
        }),
        forall|x: Seq<char>|
            x != agent_id@ && old(agent_transactions)@.contains_key(x) ==> final(
                agent_transactions
            )@[x] == old(agent_transactions)@[x],
        forall|x: Seq<char>|
            x != agent_id@ ==> ((#[trigger] final(agent_transactions)@.contains_key(x))
                <==> old(agent_transactions)@.contains_key(x)),
{
    let list: Vec<u64> = match agent_transactions.get(agent_id) {
        Some(l) => {
            let mut l2 = clone_u64s(l);
            l2.push(tx_id);
            l2
        },
        None => {
            let mut l2: Vec<u64> = Vec::new();
            l2.push(tx_id);
            proof {
                assert(l2@ =~= seq![tx_id]);
            }
            l2
        },
    };
    agent_transactions.insert(agent_id.clone(), list);
}

/// Record one balance-affecting event: allocate the next transaction id,
/// append the record, and index it under each participant.  Nothing is
/// written when the id counter would overflow.
pub fn record_transaction(
    config: &mut Config,
    transactions: &mut Vec<TransactionRecord>,
    agent_transactions: &mut StrMap<Vec<u64>>,
    tx_type: TransactionType,
    from: Option<String>,
    to: Option<String>,
    amount: Coin,
    memo: Option<String>,
    timestamp: u64,
) -> (r: Result<(), ContractError>)
    requires
        old(agent_transactions).wf(),
        old(transactions)@.len() + 1 == old(config).next_tx_id,
        forall|i: int|
            0 <= i < old(transactions)@.len() ==> (#[trigger] old(transactions)@[i]).tx_id == i
                + 1,
        forall|k: Seq<char>|
            #[trigger] old(agent_transactions)@.contains_key(k) ==> tx_list_ok(
                old(agent_transactions)@[k]@,
                old(config).next_tx_id,
            ),
    ensures
        final(agent_transactions).wf(),
        r is Err ==> *final(config) == *old(config) && *final(transactions) == *old(transactions)
            && *final(agent_transactions) == *old(agent_transactions),
        old(config).next_tx_id == u64::MAX <==> (r matches Err(ContractError::Overflow { .. })),
        r is Err <==> old(config).next_tx_id == u64::MAX,
        final(transactions)@.len() + 1 == final(config).next_tx_id,
        forall|i: int|
            0 <= i < final(transactions)@.len() ==> (#[trigger] final(transactions)@[i]).tx_id == i
                + 1,
        forall|k: Seq<char>|
            #[trigger] final(agent_transactions)@.contains_key(k) ==> tx_list_ok(
                final(agent_transactions)@[k]@,
                final(config).next_tx_id,
            ),
        r is Ok ==> {
            &&& final(config).next_tx_id == old(config).next_tx_id + 1
            &&& final(config).admin == old(config).admin
            &&& final(config).stablecoin_denom == old(config).stablecoin_denom
            &&& final(config).min_agent_balance == old(config).min_agent_balance
            &&& final(config).service_fee_percentage == old(config).service_fee_percentage
            &&& final(config).next_agent_id == old(config).next_agent_id
            &&& final(config).next_service_id == old(config).next_service_id
            &&& final(transactions)@.len() == old(transactions)@.len() + 1
            &&& forall|i: int|
                0 <= i < old(transactions)@.len() ==> final(transactions)@[i] == #[trigger] old(
                    transactions,
                )@[i]
            &&& final(transactions)@.last()@ == (TransactionRecordV {
                tx_id: old(config).next_tx_id,
                tx_type,
                from: opt_view(from),
                to: opt_view(to),
                amount: amount@,
                memo: opt_view(memo),
                timestamp,
            })
            &&& tx_indexed(
                *old(agent_transactions),
                *final(agent_transactions),
                opt_view(from),
                opt_view(to),
                old(config).next_tx_id,
            )
        },
{
    if config.next_tx_id == u64::MAX {
        return Err(ContractError::Overflow {});
    }
    let tx_id = config.next_tx_id;
    config.next_tx_id = config.next_tx_id + 1;
    let record = TransactionRecord {
        tx_id,
        tx_type,
        from: match &from {
            Some(s) => Some(s.clone()),
            None => None,
        },
        to: match &to {
            Some(s) => Some(s.clone()),
            None => None,
        },
        amount,
        memo,
        timestamp,
    };
    transactions.push(record);
    let mut from_indexed: bool = false;
    if let Some(f) = &from {
        index_tx(agent_transactions, f, tx_id);
        from_indexed = true;
    }
    if let Some(t) = &to {
        let same = match &from {
            Some(f) => crate::order::str_eq(f, t),
            None => false,
        };
        if !same {
            index_tx(agent_transactions, t, tx_id);
        }
    }
    Ok(())
}

} // verus!
