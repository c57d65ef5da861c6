//! Operational safety checks shared by the contract family: permission and
//! bounds validation, reentrancy and pause guards, rate limiting, and the
//! small read-side helpers.

use vstd::prelude::*;

use crate::errors::ContractError;

verus! {

/// The longest escrow identifier accepted by input validation.
pub const MAX_ESCROW_ID_LENGTH: usize = 64;

/// The longest escrow title accepted by input validation.
pub const MAX_TITLE_LENGTH: usize = 128;

/// The longest escrow description accepted by input validation.
pub const MAX_DESCRIPTION_LENGTH: usize = 512;

/// The most whitelist entries an escrow may carry.
pub const MAX_WHITELIST_SIZE: usize = 50;

/// Rate limiting parameters: at most `max_operations` calls per window.
pub struct RateLimit {
    pub max_operations: u32,
    pub time_window: u64,
}

/// Per-address call count within the current window.
pub struct OperationTracker {
    pub address: String,
    pub count: u32,
    pub window_start: u64,
}

impl RateLimit {
    /// Count one operation against the tracker, resetting the window when
    /// it has elapsed; fails once the window's quota is used up.
    pub fn check_and_update(&self, tracker: &mut OperationTracker, now: u64) -> (r: Result<
        (),
        ContractError,
    >)
        requires
            self.time_window * 1000000000 <= u64::MAX,
            old(tracker).window_start + self.time_window * 1000000000 <= u64::MAX,
            old(tracker).count < u32::MAX,
        ensures
            ({
                let duration = self.time_window * 1000000000;
                let reset = now > old(tracker).window_start + duration;
                let base: int = if reset {
                    0
                } else {
                    old(tracker).count as int
                };
                &&& (r is Ok <==> base < self.max_operations)
                &&& (r is Ok ==> final(tracker).count == base + 1 && final(tracker).window_start
                    == (if reset {
                    now
                } else {
                    old(tracker).window_start
                }))
                &&& (r is Err ==> final(tracker).count == base && *final(tracker) == (
                OperationTracker {
                    count: base as u32,
                    window_start: if reset {
                        now
                    } else {
                        old(tracker).window_start
                    },
                    ..*old(tracker)
                }))
                &&& final(tracker).address == old(tracker).address
            }),
    {
        let duration = self.time_window * 1000000000;
        if now > tracker.window_start + duration {
            tracker.count = 0;
            tracker.window_start = now;
        }
        if tracker.count >= self.max_operations {
            return Err(ContractError::CustomError {
                msg: String::from_str("Rate limit exceeded"),
            });
        }
        tracker.count = tracker.count + 1;
        Ok(())
    }
}

/// Security checks shared by the escrow operations.
pub struct SecurityChecks;

impl SecurityChecks {
    /// The sender must be exactly the required identity.
    pub fn validate_permission(sender: &String, required: &String) -> (r: Result<
        (),
        ContractError,
    >)
        ensures
            r is Ok <==> sender@ == required@,
            r is Err ==> r matches Err(ContractError::Unauthorized { .. }),
    {
        if !crate::order::str_eq(sender, required) {
            return Err(ContractError::Unauthorized {
                reason: String::from_str("Sender lacks the required permission"),
            });
        }
        Ok(())
    }

    /// A locked guard means a reentrant call.
    pub fn check_no_reentrancy(is_locked: bool) -> (r: Result<(), ContractError>)
        ensures
            r is Ok <==> !is_locked,
            r is Err ==> r matches Err(ContractError::CustomError { .. }),
    {
        if is_locked {
            return Err(ContractError::CustomError {
                msg: String::from_str("Reentrancy detected"),
            });
        }
        Ok(())
    }

    /// The amount must sit within the configured bounds.
    pub fn validate_amount_bounds(amount: u128, min: u128, max: u128) -> (r: Result<
        (),
        ContractError,
    >)
        ensures
            r is Ok <==> min <= amount <= max,
            amount < min ==> r matches Err(ContractError::CustomError { .. }),
            amount > max && amount >= min ==> r matches Err(ContractError::CustomError { .. }),
    {
        if amount < min {
            return Err(ContractError::CustomError {
                msg: String::from_str("Amount below the minimum"),
            });
        }
        if amount > max {
            return Err(ContractError::CustomError {
                msg: String::from_str("Amount above the maximum"),
            });
        }
        Ok(())
    }

    /// The address must not be on the blacklist.
    pub fn check_not_blacklisted(address: &String, blacklist: &Vec<String>) -> (r: Result<
        (),
        ContractError,
    >)
        ensures
            r is Ok <==> !crate::types::views_of(blacklist@).contains(address@),
            r is Err ==> r matches Err(ContractError::Unauthorized { .. }),
    {
        let n = blacklist.len();
        let mut i: usize = 0;
        while i < n
            invariant
                i <= n,
                n == blacklist@.len(),
                forall|j: int| 0 <= j < i ==> #[trigger] blacklist@[j]@ != address@,
            decreases n - i,
        {
            if crate::order::str_eq(&blacklist[i], address) {
                proof {
                    assert(crate::types::views_of(blacklist@)[i as int] == address@);
                }
                return Err(ContractError::Unauthorized {
                    reason: String::from_str("Address is blacklisted"),
                });
            }
            i = i + 1;
        }
        proof {
            if crate::types::views_of(blacklist@).contains(address@) {
                let j = choose|j: int|
                    0 <= j < crate::types::views_of(blacklist@).len() && crate::types::views_of(
                        blacklist@,
                    )[j] == address@;
                assert(blacklist@[j]@ == address@);
            }
        }
        Ok(())
    }

    /// The whole contract may be paused in an emergency.
    pub fn check_not_paused(is_paused: bool) -> (r: Result<(), ContractError>)
        ensures
            r is Ok <==> !is_paused,
            r is Err ==> r matches Err(ContractError::CustomError { .. }),
    {
        if is_paused {
            return Err(ContractError::CustomError {
                msg: String::from_str("Contract is paused"),
            });
        }
        Ok(())
    }
}

/// The emergency pause switch and its bookkeeping.
pub struct EmergencyPause {
    pub is_paused: bool,
    pub paused_at: Option<u64>,
    pub paused_by: Option<String>,
}

impl EmergencyPause {
    pub fn new() -> (r: Self)
        ensures
            !r.is_paused,
            r.paused_at is None,
            r.paused_by is None,
    {
        EmergencyPause { is_paused: false, paused_at: None, paused_by: None }
    }

    /// Pause; refused when already paused.
    pub fn pause(&mut self, now: u64, pauser: String) -> (r: Result<(), ContractError>)
        ensures
            r is Ok <==> !old(self).is_paused,
            r is Err ==> *final(self) == *old(self) && (r matches Err(
                ContractError::CustomError { .. },
            )),
            r is Ok ==> final(self).is_paused && final(self).paused_at == Some(now) && (match final(self).paused_by {
                Some(ref p) => p@ == pauser@,
                None => false,
            }),
    {
        if self.is_paused {
            return Err(ContractError::CustomError { msg: String::from_str("Already paused") });
        }
        self.is_paused = true;
        self.paused_at = Some(now);
        self.paused_by = Some(pauser);
        Ok(())
    }

    /// Resume; refused when not paused.
    pub fn unpause(&mut self) -> (r: Result<(), ContractError>)
        ensures
            r is Ok <==> old(self).is_paused,
            r is Err ==> *final(self) == *old(self) && (r matches Err(
                ContractError::CustomError { .. },
            )),
            r is Ok ==> !final(self).is_paused && final(self).paused_at is None
                && final(self).paused_by is None,
    {
        if !self.is_paused {
            return Err(ContractError::CustomError { msg: String::from_str("Not paused") });
        }
        self.is_paused = false;
        self.paused_at = None;
        self.paused_by = None;
        Ok(())
    }
}

/// A cached value that avoids repeated loads until invalidated.
pub struct CachedValue<T> {
    pub value: Option<T>,
    pub loaded: bool,
}

impl<T> CachedValue<T> {
    pub fn new() -> (r: Self)
        ensures
            r.value is None,
            !r.loaded,
    {
        CachedValue { value: None, loaded: false }
    }

    /// Drop the cached value so the next read loads afresh.
    pub fn invalidate(&mut self)
        ensures
            final(self).value is None,
            !final(self).loaded,
    {
        self.loaded = false;
        self.value = None;
    }
}

/// A zero amount is rejected, naming the asset.
pub fn validate_amount_nonzero(amount: &u128, asset: &str) -> (r: Result<(), String>)
    ensures
        r is Ok <==> *amount != 0,
        r matches Err(m) ==> m@ == "Amount must be greater than 0 for "@ + asset@,
{
    if *amount == 0 {
        let mut m = String::from_str("Amount must be greater than 0 for ");
        m.append(asset);
        return Err(m);
    }
    Ok(())
}

/// Whether a value lies within a closed range.
pub fn is_within_range(value: u128, min: u128, max: u128) -> (r: bool)
    ensures
        r == (min <= value <= max),
{
    value >= min && value <= max
}

/// The smaller of two amounts.
pub fn min_u128(a: u128, b: u128) -> (r: u128)
    ensures
        r == if a < b {
            a
        } else {
            b
        },
{
    if a < b {
        a
    } else {
        b
    }
}

/// The larger of two amounts.
pub fn max_u128(a: u128, b: u128) -> (r: u128)
    ensures
        r == if a > b {
            a
        } else {
            b
        },
{
    if a > b {
        a
    } else {
        b
    }
}

} // verus!
