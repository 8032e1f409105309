//! The values of the host runtime that the harness depends on, gathered in
//! one explicit object.

use vstd::prelude::*;

verus! {

/// An amount of the host's currency.
pub type Balance = u128;

/// A block height.
pub type BlockNumber = u64;

/// The constants of the host's fee model that the rent-bearing endowment is
/// derived from. They are an input of the harness: `version` names the fee
/// model that the other fields were taken from.
#[derive(Clone, Copy, Debug, PartialEq, Eq, Structural)]
pub struct FeeModel {
    /// Version of the fee model these constants belong to.
    pub version: u32,
    /// The least balance with which a contract stays alive.
    pub subsistence_threshold: Balance,
    /// The balance that offsets one byte of stored data.
    pub rent_deposit_offset: Balance,
    /// The storage size that every contract is charged for in addition to its own.
    pub storage_size_offset: u32,
}

/// Everything the harness reads from the host's configuration.
#[derive(Clone, Copy, Debug, PartialEq, Eq, Structural)]
pub struct HostConfig {
    /// The largest balance the host's currency can represent.
    pub max_balance: Balance,
    /// The least balance an account may hold.
    pub minimum_balance: Balance,
    /// The largest number of 64 KiB pages of linear memory a contract may have.
    pub max_memory_pages: u32,
    /// The number of blocks by which a signed eviction claim lags behind.
    pub signed_claim_handicap: BlockNumber,
    /// The fee model's constants.
    pub fees: FeeModel,
}

impl HostConfig {
    /// The largest memory is not empty, and every one of its bytes has an
    /// address of 32 bits.
    pub open spec fn addressable(self) -> bool {
        1 <= self.max_memory_pages <= 65535
    }

    /// Whether the largest memory is not empty and every one of its bytes
    /// has an address of 32 bits.
    pub fn is_addressable(&self) -> (yes: bool)
        ensures
            yes == self.addressable(),
    {
        1 <= self.max_memory_pages && self.max_memory_pages <= 65535
    }
}

/// The balance every account of a scenario is funded with.
pub open spec fn spec_funding(config: HostConfig) -> Balance {
    config.max_balance / 2
}

/// The endowment that is so large that rent never matters.
pub open spec fn spec_max_endowment(config: HostConfig) -> Balance {
    if spec_funding(config) >= config.minimum_balance {
        (spec_funding(config) - config.minimum_balance) as Balance
    } else {
        0
    }
}

/// The number of memory pages a contract of this host may use at most.
pub fn max_pages(config: &HostConfig) -> (pages: u32)
    ensures
        pages == config.max_memory_pages,
{
    config.max_memory_pages
}

/// Half of the largest representable balance, so that sums of a few such
/// balances never overflow.
pub fn funding(config: &HostConfig) -> (amount: Balance)
    ensures
        amount == spec_funding(*config),
        amount + amount <= config.max_balance,
{
    config.max_balance / 2
}

/// The funding less the balance that the funded account itself must keep.
pub fn max_endowment(config: &HostConfig) -> (amount: Balance)
    ensures
        amount == spec_max_endowment(*config),
        amount <= spec_funding(*config),
{
    funding(config).saturating_sub(config.minimum_balance)
}

/// How a contract is endowed when it is instantiated.
#[derive(Clone, Copy, Debug, PartialEq, Eq, Structural)]
pub enum Endow {
    /// So much that rent never matters.
    Max,
    /// So little that the contract pays rent and is evicted after a few
    /// blocks, and yet enough for it to come to life.
    CollectRent,
}

/// The storage size a rent-bearing contract is charged for: as many bytes as
/// the subsistence threshold offsets, so that the contract pays rent although
/// its balance is above the threshold.
pub open spec fn rent_storage_size(fees: FeeModel) -> Balance {
    if fees.rent_deposit_offset == 0 {
        0
    } else {
        fees.subsistence_threshold / fees.rent_deposit_offset
    }
}

/// The endowment of a rent-bearing contract: one less than what offsets its
/// storage, within the balances that the host can represent.
pub open spec fn rent_endowment(config: HostConfig) -> Balance {
    let product = config.fees.rent_deposit_offset * (rent_storage_size(config.fees)
        + config.fees.storage_size_offset);
    let capped = if product > config.max_balance {
        config.max_balance as int
    } else {
        product
    };
    if capped >= 1 {
        (capped - 1) as Balance
    } else {
        0
    }
}

/// The storage size and the endowment that a policy stands for.
pub open spec fn spec_endowment(config: HostConfig, endow: Endow) -> (u32, Balance) {
    match endow {
        Endow::CollectRent => (
            if rent_storage_size(config.fees) > u32::MAX {
                u32::MAX
            } else {
                rent_storage_size(config.fees) as u32
            },
            rent_endowment(config),
        ),
        Endow::Max => (0, spec_max_endowment(config)),
    }
}

impl HostConfig {
    /// No balance of the configuration exceeds the largest balance that the
    /// host can represent, nor does the storage size that a rent-bearing
    /// contract is charged for.
    pub open spec fn valid(self) -> bool {
        &&& self.minimum_balance <= self.max_balance
        &&& self.fees.subsistence_threshold <= self.max_balance
        &&& self.fees.rent_deposit_offset <= self.max_balance
        &&& rent_storage_size(self.fees) + self.fees.storage_size_offset <= self.max_balance
    }

    /// Whether the configuration is valid.
    pub fn is_valid(&self) -> (yes: bool)
        ensures
            yes == self.valid(),
    {
        if self.minimum_balance > self.max_balance || self.fees.subsistence_threshold
            > self.max_balance || self.fees.rent_deposit_offset > self.max_balance {
            return false;
        }
        let size: Balance = match self.fees.subsistence_threshold.checked_div(
            self.fees.rent_deposit_offset,
        ) {
            Some(size) => size,
            None => 0,
        };
        match size.checked_add(self.fees.storage_size_offset as Balance) {
            Some(sum) => sum <= self.max_balance,
            None => false,
        }
    }
}

/// The storage size that is accounted to a contract endowed by the given
/// policy, and its endowment.
pub fn endowment(config: &HostConfig, endow: Endow) -> (r: (u32, Balance))
    requires
        config.valid(),
    ensures
        r == spec_endowment(*config, endow),
{
    match endow {
        Endow::CollectRent => {
            let storage_size: Balance = match config.fees.subsistence_threshold.checked_div(
                config.fees.rent_deposit_offset,
            ) {
                Some(size) => size,
                None => 0,
            };
            let charged: Balance = storage_size + config.fees.storage_size_offset as Balance;
            let capped: Balance = match config.fees.rent_deposit_offset.checked_mul(charged) {
                Some(product) => if product > config.max_balance {
                    config.max_balance
                } else {
                    product
                },
                None => config.max_balance,
            };
            let accounted: u32 = if storage_size > u32::MAX as Balance {
                u32::MAX
            } else {
                storage_size as u32
            };
            (accounted, capped.saturating_sub(1))
        },
        Endow::Max => (0, max_endowment(config)),
    }
}

/// A rent-bearing contract is endowed with the subsistence threshold or more:
/// this holds wherever a byte of storage costs something, every contract is
/// charged for a byte or more beyond its own, and the threshold is below the
/// largest balance.
pub proof fn lemma_rent_endowment_subsists(config: HostConfig)
    requires
        config.valid(),
        config.fees.rent_deposit_offset >= 1,
        config.fees.storage_size_offset >= 1,
        config.fees.subsistence_threshold < config.max_balance,
    ensures
        rent_endowment(config) >= config.fees.subsistence_threshold,
{
    let offset = config.fees.rent_deposit_offset as int;
    let threshold = config.fees.subsistence_threshold as int;
    let size = rent_storage_size(config.fees) as int;
    let extra = config.fees.storage_size_offset as int;
    vstd::arithmetic::div_mod::lemma_fundamental_div_mod(threshold, offset);
    vstd::arithmetic::div_mod::lemma_mod_bound(threshold, offset);
    assert(offset * (size + extra) >= offset * size + offset) by (nonlinear_arith)
        requires
            extra >= 1,
            offset >= 1,
    ;
}

} // verus!
