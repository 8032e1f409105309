//! Forcing the eviction of a contract.

use vstd::prelude::*;
use crate::config::BlockNumber;
use crate::config::HostConfig;
use crate::hashing::AccountId;
use crate::host::ensure_tombstone;
use crate::host::eviction_at;
use crate::host::invalid_rent_account_message;
use crate::host::no_rent_message;
use crate::host::not_tombstone_message;
use crate::host::unexpected_reply_message;
use crate::host::ContractInfoView;
use crate::host::RentProjection;
use crate::host::Reply;
use crate::host::ReplyView;
use crate::host::Request;
use crate::host::RequestView;

verus! {

/// The number of blocks that a forced eviction waits beyond the forecast
/// eviction and the handicap.
pub const EVICTION_MARGIN: BlockNumber = 5;

/// Where a forced eviction stands: which answer it waits for.
#[derive(Clone, Copy, Debug, PartialEq, Eq, Structural)]
pub enum EvictionPhase {
    /// The rent is being forecast.
    Projecting,
    /// The block height is being advanced.
    Advancing,
    /// The rent is being collected.
    Collecting,
    /// The contract is being looked up.
    Checking,
}

/// A forced eviction under way.
#[derive(Clone, Copy, Debug)]
pub struct Eviction {
    pub phase: EvictionPhase,
    /// The account of the contract.
    pub account: AccountId,
    /// The number of blocks by which a signed eviction claim lags behind.
    pub handicap: BlockNumber,
    /// The number of blocks to wait beyond that.
    pub margin: BlockNumber,
}

/// What a forced eviction does next.
#[derive(Debug)]
pub enum EvictionStep {
    /// It asks the host and waits for the answer.
    Ask(Eviction, Request),
    /// It has ended.
    Done(Result<(), &'static str>),
}

/// The next step of a forced eviction as contracts see it.
pub enum EvictionStepView {
    Ask(Eviction, RequestView),
    Done(Result<(), Seq<char>>),
}

impl View for EvictionStep {
    type V = EvictionStepView;

    open spec fn view(&self) -> EvictionStepView {
        match self {
            EvictionStep::Ask(state, request) => EvictionStepView::Ask(*state, request@),
            EvictionStep::Done(Ok(_)) => EvictionStepView::Done(Ok(())),
            EvictionStep::Done(Err(reason)) => EvictionStepView::Done(Err(reason@)),
        }
    }
}

/// The block at which rent is collected: the forecast eviction, the handicap
/// and the margin later, or the last block there is.
pub open spec fn eviction_target(at: BlockNumber, handicap: BlockNumber, margin: BlockNumber) -> BlockNumber {
    if at + handicap + margin > BlockNumber::MAX {
        BlockNumber::MAX
    } else {
        (at + handicap + margin) as BlockNumber
    }
}

impl Eviction {
    /// The eviction in another phase.
    pub open spec fn at(self, phase: EvictionPhase) -> Eviction {
        Eviction { phase, ..self }
    }

    /// What the eviction does on an answer of the host.
    ///
    /// The rent is forecast, the block height is set past the forecast
    /// eviction, the rent is collected and the contract is looked up: it has
    /// to be a tombstone. A contract without a forecast eviction ends the
    /// eviction with the reason, and so does an answer that does not fit the
    /// request.
    pub open spec fn spec_resume(self, reply: ReplyView) -> EvictionStepView {
        match (self.phase, reply) {
            (EvictionPhase::Projecting, ReplyView::Projection { projection }) => match projection {
                Ok(RentProjection::EvictionAt(at)) => EvictionStepView::Ask(
                    self.at(EvictionPhase::Advancing),
                    RequestView::SetBlockNumber {
                        number: eviction_target(at, self.handicap, self.margin),
                    },
                ),
                Ok(RentProjection::NoEviction) => EvictionStepView::Done(Err(no_rent_message())),
                Err(_) => EvictionStepView::Done(Err(invalid_rent_account_message())),
            },
            (EvictionPhase::Advancing, ReplyView::Done) => EvictionStepView::Ask(
                self.at(EvictionPhase::Collecting),
                RequestView::CollectRent { account: self.account },
            ),
            (EvictionPhase::Collecting, ReplyView::Done) => EvictionStepView::Ask(
                self.at(EvictionPhase::Checking),
                RequestView::ReadContract { account: self.account },
            ),
            (EvictionPhase::Checking, ReplyView::Contract { info }) => match info {
                Some(ContractInfoView::Tombstone) => EvictionStepView::Done(Ok(())),
                _ => EvictionStepView::Done(Err(not_tombstone_message())),
            },
            _ => EvictionStepView::Done(Err(unexpected_reply_message())),
        }
    }

    /// Takes the host's answer to the last request and tells what comes next.
    pub fn resume(self, reply: Reply) -> (step: EvictionStep)
        ensures
            step@ == self.spec_resume(reply@),
    {
        let mut state = self;
        match (state.phase, reply) {
            (EvictionPhase::Projecting, Reply::Projection { projection }) => {
                match eviction_at(projection) {
                    Ok(at) => {
                        let number = at.saturating_add(state.handicap).saturating_add(state.margin);
                        state.phase = EvictionPhase::Advancing;
                        EvictionStep::Ask(state, Request::SetBlockNumber { number })
                    },
                    Err(reason) => EvictionStep::Done(Err(reason)),
                }
            },
            (EvictionPhase::Advancing, Reply::Done) => {
                state.phase = EvictionPhase::Collecting;
                EvictionStep::Ask(state, Request::CollectRent { account: state.account })
            },
            (EvictionPhase::Collecting, Reply::Done) => {
                state.phase = EvictionPhase::Checking;
                EvictionStep::Ask(state, Request::ReadContract { account: state.account })
            },
            (EvictionPhase::Checking, Reply::Contract { info }) => {
                match ensure_tombstone(info) {
                    Ok(_) => EvictionStep::Done(Ok(())),
                    Err(reason) => EvictionStep::Done(Err(reason)),
                }
            },
            _ => EvictionStep::Done(Err("Unexpected answer from the host.")),
        }
    }
}

/// Starts the forced eviction of a contract: returns the eviction and its
/// first request, the forecast of the contract's rent.
pub fn force_eviction(config: &HostConfig, account: AccountId, margin: BlockNumber) -> (start: (
    Eviction,
    Request,
))
    ensures
        start.0 == (Eviction {
            phase: EvictionPhase::Projecting,
            account,
            handicap: config.signed_claim_handicap,
            margin,
        }),
        start.1@ == (RequestView::ProjectRent { account }),
{
    (
        Eviction {
            phase: EvictionPhase::Projecting,
            account,
            handicap: config.signed_claim_handicap,
            margin,
        },
        Request::ProjectRent { account },
    )
}

} // verus!
