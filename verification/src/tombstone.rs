//! The fixture of an evicted contract.
//!
//! A contract is instantiated with a rent-bearing endowment, seeded with
//! storage items and evicted. What remains is its tombstone; the items it
//! held are kept for a later restoration.

use vstd::prelude::*;
use crate::code::dummy_code;
use crate::code::spec_create_code;
use crate::config::BlockNumber;
use crate::config::Endow;
use crate::config::HostConfig;
use crate::eviction::Eviction;
use crate::eviction::EvictionPhase;
use crate::eviction::EvictionStep;
use crate::eviction::EvictionStepView;
use crate::eviction::EVICTION_MARGIN;
use crate::host::Contract;
use crate::host::Reply;
use crate::host::ReplyView;
use crate::host::Request;
use crate::host::RequestView;
use crate::lifecycle::instantiate_contract;
use crate::lifecycle::instantiator;
use crate::lifecycle::spec_instantiate;
use crate::lifecycle::Instantiation;
use crate::lifecycle::InstantiationStep;
use crate::lifecycle::InstantiationStepView;
use crate::lifecycle::InstantiationView;
use crate::module::ModuleDefinitionView;
use crate::storage::create_storage;
use crate::storage::hash_too_big_message;
use crate::storage::items_view;
use crate::storage::keys_fit;
use crate::storage::spec_storage;
use crate::storage::store_items;
use crate::storage::Seeding;
use crate::storage::SeedingStep;
use crate::storage::SeedingStepView;
use crate::storage::SeedingView;
use crate::storage::StorageItem;
use crate::storage::StorageKey;

verus! {

/// An evicted contract and the storage it held when it was evicted.
#[derive(Debug)]
pub struct Tombstone {
    /// The contract as it was instantiated.
    pub contract: Contract,
    /// The items that the contract held.
    pub storage: Vec<StorageItem>,
}

/// A tombstone fixture as contracts see it.
pub struct TombstoneView {
    pub contract: Contract,
    pub storage: Seq<(StorageKey, Seq<u8>)>,
}

impl View for Tombstone {
    type V = TombstoneView;

    open spec fn view(&self) -> TombstoneView {
        TombstoneView { contract: self.contract, storage: items_view(self.storage@) }
    }
}

/// The making of a tombstone under way.
#[derive(Debug)]
pub enum TombstoneCreation {
    /// The contract is being instantiated.
    Instantiating {
        instantiation: Instantiation,
        stor_num: u32,
        stor_size: u32,
        handicap: BlockNumber,
    },
    /// The storage of the contract is being written.
    Seeding { contract: Contract, seeding: Seeding, handicap: BlockNumber },
    /// The contract is being evicted.
    Evicting { contract: Contract, storage: Vec<StorageItem>, eviction: Eviction },
}

/// The making of a tombstone as contracts see it.
pub enum TombstoneCreationView {
    Instantiating {
        instantiation: InstantiationView,
        stor_num: u32,
        stor_size: u32,
        handicap: BlockNumber,
    },
    Seeding { contract: Contract, seeding: SeedingView, handicap: BlockNumber },
    Evicting { contract: Contract, storage: Seq<(StorageKey, Seq<u8>)>, eviction: Eviction },
}

impl View for TombstoneCreation {
    type V = TombstoneCreationView;

    open spec fn view(&self) -> TombstoneCreationView {
        match self {
            TombstoneCreation::Instantiating {
                instantiation,
                stor_num,
                stor_size,
                handicap,
            } => TombstoneCreationView::Instantiating {
                instantiation: instantiation@,
                stor_num: *stor_num,
                stor_size: *stor_size,
                handicap: *handicap,
            },
            TombstoneCreation::Seeding { contract, seeding, handicap } => {
                TombstoneCreationView::Seeding {
                    contract: *contract,
                    seeding: seeding@,
                    handicap: *handicap,
                }
            },
            TombstoneCreation::Evicting { contract, storage, eviction } => {
                TombstoneCreationView::Evicting {
                    contract: *contract,
                    storage: items_view(storage@),
                    eviction: *eviction,
                }
            },
        }
    }
}

/// What the making of a tombstone does next.
#[derive(Debug)]
pub enum TombstoneStep {
    /// It asks the host and waits for the answer.
    Ask(TombstoneCreation, Request),
    /// It has ended.
    Done(Result<Tombstone, &'static str>),
}

/// The next step of the making of a tombstone as contracts see it.
pub enum TombstoneStepView {
    Ask(TombstoneCreationView, RequestView),
    Done(Result<TombstoneView, Seq<char>>),
}

impl View for TombstoneStep {
    type V = TombstoneStepView;

    open spec fn view(&self) -> TombstoneStepView {
        match self {
            TombstoneStep::Ask(state, request) => TombstoneStepView::Ask(state@, request@),
            TombstoneStep::Done(Ok(tombstone)) => TombstoneStepView::Done(Ok(tombstone@)),
            TombstoneStep::Done(Err(reason)) => TombstoneStepView::Done(Err(reason@)),
        }
    }
}

pub open spec fn encoding_failed_message() -> Seq<char> {
    "Failed to encode the contract module."@
}

/// The writing of storage items at its start.
pub open spec fn seeding_start(contract: Contract, items: Seq<(StorageKey, Seq<u8>)>) -> SeedingView {
    SeedingView {
        account: contract.account_id,
        items,
        reading: true,
        trie_id: Seq::empty(),
        written: 0,
    }
}

/// The forced eviction at its start.
pub open spec fn eviction_start(contract: Contract, handicap: BlockNumber) -> Eviction {
    Eviction {
        phase: EvictionPhase::Projecting,
        account: contract.account_id,
        handicap,
        margin: EVICTION_MARGIN,
    }
}

impl TombstoneCreationView {
    /// What the making of a tombstone does on an answer of the host.
    ///
    /// The contract is instantiated. Then its storage items are generated
    /// and written. Then the contract is evicted: rent is collected at the
    /// forecast eviction, the handicap and the margin later. Whatever ends
    /// one of the three with a reason ends the making with that reason.
    pub open spec fn resume(self, reply: ReplyView) -> TombstoneStepView {
        match self {
            TombstoneCreationView::Instantiating {
                instantiation,
                stor_num,
                stor_size,
                handicap,
            } => match instantiation.resume(reply) {
                InstantiationStepView::Ask(instantiation, request) => TombstoneStepView::Ask(
                    TombstoneCreationView::Instantiating {
                        instantiation,
                        stor_num,
                        stor_size,
                        handicap,
                    },
                    request,
                ),
                InstantiationStepView::Done(Err(reason)) => TombstoneStepView::Done(Err(reason)),
                InstantiationStepView::Done(Ok(contract)) => if keys_fit(stor_num as nat) {
                    TombstoneStepView::Ask(
                        TombstoneCreationView::Seeding {
                            contract,
                            seeding: seeding_start(contract, spec_storage(stor_num, stor_size)),
                            handicap,
                        },
                        RequestView::ReadContract { account: contract.account_id },
                    )
                } else {
                    TombstoneStepView::Done(Err(hash_too_big_message()))
                },
            },
            TombstoneCreationView::Seeding { contract, seeding, handicap } => match seeding.resume(
                reply,
            ) {
                SeedingStepView::Ask(seeding, request) => TombstoneStepView::Ask(
                    TombstoneCreationView::Seeding { contract, seeding, handicap },
                    request,
                ),
                SeedingStepView::Done(Err(reason)) => TombstoneStepView::Done(Err(reason)),
                SeedingStepView::Done(Ok(storage)) => TombstoneStepView::Ask(
                    TombstoneCreationView::Evicting {
                        contract,
                        storage,
                        eviction: eviction_start(contract, handicap),
                    },
                    RequestView::ProjectRent { account: contract.account_id },
                ),
            },
            TombstoneCreationView::Evicting {
                contract,
                storage,
                eviction,
            } => match eviction.spec_resume(reply) {
                EvictionStepView::Ask(eviction, request) => TombstoneStepView::Ask(
                    TombstoneCreationView::Evicting { contract, storage, eviction },
                    request,
                ),
                EvictionStepView::Done(Err(reason)) => TombstoneStepView::Done(Err(reason)),
                EvictionStepView::Done(Ok(_)) => TombstoneStepView::Done(
                    Ok(TombstoneView { contract, storage }),
                ),
            },
        }
    }
}

impl TombstoneCreation {
    /// Takes the host's answer to the last request and tells what comes next.
    pub fn resume(self, reply: Reply) -> (step: TombstoneStep)
        ensures
            step@ == self@.resume(reply@),
    {
        match self {
            TombstoneCreation::Instantiating { instantiation, stor_num, stor_size, handicap } => {
                match instantiation.resume(reply) {
                    InstantiationStep::Ask(instantiation, request) => TombstoneStep::Ask(
                        TombstoneCreation::Instantiating {
                            instantiation,
                            stor_num,
                            stor_size,
                            handicap,
                        },
                        request,
                    ),
                    InstantiationStep::Done(Err(reason)) => TombstoneStep::Done(Err(reason)),
                    InstantiationStep::Done(Ok(contract)) => {
                        match create_storage(stor_num, stor_size) {
                            Ok(items) => {
                                let (seeding, request) = store_items(contract.account_id, items);
                                TombstoneStep::Ask(
                                    TombstoneCreation::Seeding { contract, seeding, handicap },
                                    request,
                                )
                            },
                            Err(reason) => TombstoneStep::Done(Err(reason)),
                        }
                    },
                }
            },
            TombstoneCreation::Seeding { contract, seeding, handicap } => {
                match seeding.resume(reply) {
                    SeedingStep::Ask(seeding, request) => TombstoneStep::Ask(
                        TombstoneCreation::Seeding { contract, seeding, handicap },
                        request,
                    ),
                    SeedingStep::Done(Err(reason)) => TombstoneStep::Done(Err(reason)),
                    SeedingStep::Done(Ok(storage)) => {
                        let eviction = Eviction {
                            phase: EvictionPhase::Projecting,
                            account: contract.account_id,
                            handicap,
                            margin: EVICTION_MARGIN,
                        };
                        TombstoneStep::Ask(
                            TombstoneCreation::Evicting { contract, storage, eviction },
                            Request::ProjectRent { account: contract.account_id },
                        )
                    },
                }
            },
            TombstoneCreation::Evicting { contract, storage, eviction } => {
                match eviction.resume(reply) {
                    EvictionStep::Ask(eviction, request) => TombstoneStep::Ask(
                        TombstoneCreation::Evicting { contract, storage, eviction },
                        request,
                    ),
                    EvictionStep::Done(Err(reason)) => TombstoneStep::Done(Err(reason)),
                    EvictionStep::Done(Ok(_)) => TombstoneStep::Done(
                        Ok(Tombstone { contract, storage }),
                    ),
                }
            },
        }
    }
}

/// Starts the making of a tombstone whose contract held `stor_num` items of
/// `stor_size` bytes each. The contract runs the module that does nothing, is
/// instantiated by the first instantiator without input and endowed so that
/// it pays rent.
pub fn create_tombstone(config: &HostConfig, stor_num: u32, stor_size: u32) -> (step: TombstoneStep)
    requires
        config.valid(),
    ensures
        match spec_create_code(ModuleDefinitionView::empty()) {
            Err(_) => step@ == TombstoneStepView::Done(Err(encoding_failed_message())),
            Ok(module) => {
                &&& step@ matches TombstoneStepView::Ask(
                    TombstoneCreationView::Instantiating {
                        instantiation,
                        stor_num: num,
                        stor_size: size,
                        handicap,
                    },
                    request,
                )
                &&& num == stor_num
                &&& size == stor_size
                &&& handicap == config.signed_claim_handicap
                &&& instantiation.caller@ == instantiator(0)
                &&& instantiation.code_hash@ == module.hash
                &&& (instantiation, request) == spec_instantiate(
                    *config,
                    instantiation.caller,
                    module.code,
                    instantiation.code_hash,
                    Seq::empty(),
                    Endow::CollectRent,
                )
            },
        },
{
    match dummy_code() {
        Ok(module) => {
            let (instantiation, request) = instantiate_contract(
                config,
                module,
                Vec::new(),
                Endow::CollectRent,
            );
            TombstoneStep::Ask(
                TombstoneCreation::Instantiating {
                    instantiation,
                    stor_num,
                    stor_size,
                    handicap: config.signed_claim_handicap,
                },
                request,
            )
        },
        Err(_) => TombstoneStep::Done(Err("Failed to encode the contract module.")),
    }
}

} // verus!
