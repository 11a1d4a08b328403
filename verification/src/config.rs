//! Process-wide configuration, mutated only by the admin operation and
//! passed by reference into every session-creating operation.

use vstd::prelude::*;
use crate::constants::{DEFAULT_FOLD_PENALTY, DEFAULT_MAX_STAKE, DEFAULT_MIN_STAKE,
    DEFAULT_PLATFORM_FEE, DEFAULT_TIMEOUT, MAX_ITEMS, MAX_ROUNDS};
use crate::errors::GameError;
use crate::keys::{key_eq, Pubkey};

verus! {

/// Admin-controlled parameters read by every operation.
#[derive(Debug)]
pub struct ConfigurationAccount {
    /// Administrator identity.
    pub admin: Pubkey,
    /// Minimum stake amount in lamports.
    pub min_stake: u64,
    /// Maximum stake amount in lamports.
    pub max_stake: u64,
    /// Maximum rounds for multi-round games.
    pub max_rounds: u8,
    /// Penalty percentage withheld from a penalised refund (0-100).
    pub fold_penalty: u8,
    /// Randomness method: 0 = commit-reveal, 1 = VRF, 2 = VDF.
    pub randomness_method: u8,
    /// Platform fee percentage (0-100).
    pub platform_fee: u8,
    /// Prices for bonus items in lamports.
    pub item_prices: Vec<u64>,
    /// Timeout in seconds before games can be force-finished.
    pub timeout: u64,
    /// Number of lottery tickets per stake unit.
    pub ticket_conversion: u64,
    /// Counter for generating unique game identifiers.
    pub game_counter: u64,
    /// Treasury identity for platform fees.
    pub treasury: Pubkey,
}

impl ConfigurationAccount {
    /// Well-formedness: the percentages are percentages, and the round
    /// bound fits the packed nibble and admits at least one round.
    pub open spec fn wf(self) -> bool {
        &&& self.fold_penalty <= 100
        &&& self.platform_fee <= 100
        &&& 1 <= self.max_rounds <= 15
    }
}

/// Token-game parameters: which mint is staked and within what bounds.
#[derive(Clone, Copy, Debug)]
pub struct TokenConfig {
    /// Accepted token mint (can be the native token or an SPL token).
    pub accepted_mint: Pubkey,
    /// Whether the native token is staked directly.
    pub is_native_sol: bool,
    /// Minimum token stake.
    pub min_stake: u64,
    /// Maximum token stake.
    pub max_stake: u64,
    /// Decimals for the token.
    pub decimals: u8,
}

/// Builds the initial configuration with the default limits, owned by
/// `admin`, paying fees to `treasury`.
pub fn initialize_config(admin: Pubkey, treasury: Pubkey) -> (c: ConfigurationAccount)
    ensures
        c.wf(),
        c.admin == admin,
        c.treasury == treasury,
        c.min_stake == DEFAULT_MIN_STAKE,
        c.max_stake == DEFAULT_MAX_STAKE,
        c.max_rounds == MAX_ROUNDS,
        c.fold_penalty == DEFAULT_FOLD_PENALTY,
        c.randomness_method == 0,
        c.platform_fee == DEFAULT_PLATFORM_FEE,
        c.item_prices@.len() == MAX_ITEMS,
        forall|i: int| 0 <= i < MAX_ITEMS ==> c.item_prices@[i] == 100_000_000u64,
        c.timeout == DEFAULT_TIMEOUT,
        c.ticket_conversion == 1,
        c.game_counter == 0,
{
    let mut item_prices: Vec<u64> = Vec::new();
    let mut i: usize = 0;
    while i < MAX_ITEMS
        invariant
            i <= MAX_ITEMS,
            item_prices@.len() == i,
            forall|j: int| 0 <= j < i ==> item_prices@[j] == 100_000_000u64,
        decreases MAX_ITEMS - i,
    {
        item_prices.push(100_000_000);
        i += 1;
    }
    ConfigurationAccount {
        admin,
        min_stake: DEFAULT_MIN_STAKE,
        max_stake: DEFAULT_MAX_STAKE,
        max_rounds: MAX_ROUNDS,
        fold_penalty: DEFAULT_FOLD_PENALTY,
        randomness_method: 0,
        platform_fee: DEFAULT_PLATFORM_FEE,
        item_prices,
        timeout: DEFAULT_TIMEOUT,
        ticket_conversion: 1,
        game_counter: 0,
        treasury,
    }
}

/// The minimum stake that results from applying an optional update.
pub open spec fn effective_min(old_min: u64, update: Option<u64>) -> u64 {
    match update {
        Some(v) => v,
        None => old_min,
    }
}

/// Updates the configuration. Only the admin may call; a stake
/// maximum must stay above the (possibly just updated) minimum, the
/// platform fee is capped at 10 percent, and the timeout must be at
/// least five minutes. A rejected update leaves the configuration
/// unchanged.
pub fn update_config(
    config: &mut ConfigurationAccount,
    caller: Pubkey,
    min_stake: Option<u64>,
    max_stake: Option<u64>,
    platform_fee: Option<u8>,
    timeout: Option<u64>,
) -> (r: Result<(), GameError>)
    requires
        old(config).wf(),
    ensures
        final(config).wf(),
        match r {
            Ok(()) => {
                &&& caller@ == old(config).admin@
                &&& (match max_stake {
                    Some(m) => m > effective_min(old(config).min_stake, min_stake),
                    None => true,
                })
                &&& (match platform_fee {
                    Some(f) => f <= 10,
                    None => true,
                })
                &&& (match timeout {
                    Some(t) => t >= 300,
                    None => true,
                })
                &&& final(config).min_stake == effective_min(old(config).min_stake, min_stake)
                &&& final(config).max_stake == (match max_stake {
                    Some(m) => m,
                    None => old(config).max_stake,
                })
                &&& final(config).platform_fee == (match platform_fee {
                    Some(f) => f,
                    None => old(config).platform_fee,
                })
                &&& final(config).timeout == (match timeout {
                    Some(t) => t,
                    None => old(config).timeout,
                })
                &&& final(config).admin == old(config).admin
                &&& final(config).treasury == old(config).treasury
                &&& final(config).max_rounds == old(config).max_rounds
                &&& final(config).fold_penalty == old(config).fold_penalty
                &&& final(config).randomness_method == old(config).randomness_method
                &&& final(config).item_prices == old(config).item_prices
                &&& final(config).ticket_conversion == old(config).ticket_conversion
                &&& final(config).game_counter == old(config).game_counter
            },
            Err(e) => {
                &&& *final(config) == *old(config)
                &&& if caller@ != old(config).admin@ {
                    e == GameError::UnauthorizedPlayer
                } else {
                    e == GameError::InvalidConfig && ((match max_stake {
                        Some(m) => m <= effective_min(old(config).min_stake, min_stake),
                        None => false,
                    }) || (match platform_fee {
                        Some(f) => f > 10,
                        None => false,
                    }) || (match timeout {
                        Some(t) => t < 300,
                        None => false,
                    }))
                }
            },
        },
{
    if !key_eq(&caller, &config.admin) {
        return Err(GameError::UnauthorizedPlayer);
    }
    let new_min = match min_stake {
        Some(m) => m,
        None => config.min_stake,
    };
    if let Some(m) = max_stake {
        if m <= new_min {
            return Err(GameError::InvalidConfig);
        }
    }
    if let Some(f) = platform_fee {
        if f > 10 {
            return Err(GameError::InvalidConfig);
        }
    }
    if let Some(t) = timeout {
        if t < 300 {
            return Err(GameError::InvalidConfig);
        }
    }
    config.min_stake = new_min;
    if let Some(m) = max_stake {
        config.max_stake = m;
    }
    if let Some(f) = platform_fee {
        config.platform_fee = f;
    }
    if let Some(t) = timeout {
        config.timeout = t;
    }
    Ok(())
}

} // verus!
