//! The DAO pallet: its time constants, events, and the dispatchable calls
//! that query token balances and the time, and that found the DAO.

#![allow(non_upper_case_globals)]

use vstd::prelude::*;
use frame_support::sp_runtime::SaturatedConversion;
use crate::dispatch::{ensure_signed, signer, DispatchError, Origin, Pays, PostDispatchInfo};
use crate::token::TokenInterface;

verus! {

/// Time is measured in blocks.
pub type BlockNumber = u32;

pub const MILLISECS_PER_BLOCK: u64 = 6000;

/// Changing the slot duration after the chain has started stops block production.
pub const SLOT_DURATION: u64 = MILLISECS_PER_BLOCK;

/// One minute: 60 000 ms over `MILLISECS_PER_BLOCK`.
pub const MINUTES: BlockNumber = 60_000 / 6000;

pub const HOURS: BlockNumber = MINUTES * 60;

pub const DAYS: BlockNumber = HOURS * 24;

pub const WEEKS: BlockNumber = DAYS * 7;

pub const minProposalDebatePeriod: BlockNumber = 2 * WEEKS;

pub const quorumHalvingPeriod: BlockNumber = 25 * WEEKS;

pub const executeProposalPeriod: BlockNumber = 10 * DAYS;

pub const preSupportTime: BlockNumber = 2 * DAYS;

pub const maxDepositDivisor: u128 = 100;

/// The quorum divisor a DAO starts with: the quorum of a proposal is partly
/// computed as the total supply divided by it.
pub const INITIAL_MIN_QUORUM_DIVISOR: u128 = 7;

/// Weight (in reference time) that `expensive_or_cheap` reports as used.
pub const CHEAP_CALL_WEIGHT: u64 = 10_000;

/// Events that the DAO pallet deposits.
#[derive(PartialEq, Eq, Clone, Debug)]
pub enum Event<A> {
    /// `(balance, who)`
    CallBalances(u128, A),
    /// `(now)`
    CallCurrentTime(u128),
    /// `(proposal id, recipient, amount, description)`
    ProposalAdded(u128, A, u128, Vec<u8>),
    /// `(proposal id, position, voter)`
    Voted(u128, bool, A),
    /// `(proposal id, result, quorum, active)`
    ProposalTallied(u128, bool, u128, u128),
    /// `(recipient, allowed)`
    AllowedRecipientChanged(A, bool),
}

/// Errors of the DAO pallet.
#[derive(PartialEq, Eq, Structural, Clone, Copy, Debug)]
pub enum Error {
    NoneValue,
    StorageOverflow,
}

/// What founding a DAO writes to storage.
#[derive(PartialEq, Eq, Structural, Clone, Copy, Debug)]
pub struct DaoSettings<A> {
    pub curator: A,
    pub proposal_deposit: u128,
    pub last_time_min_quorum_met: BlockNumber,
    pub min_quorum_divisor: u128,
}

/// A moment in milliseconds as a block number, `u32::MAX` where it does not fit.
pub open spec fn saturated(t: u64) -> u32 {
    if t <= u32::MAX as u64 {
        t as u32
    } else {
        u32::MAX
    }
}

/// Converts with sp-arithmetic's `SaturatedConversion::saturated_into`, which
/// tries the conversion and falls back to `u32::MAX` where `t` does not fit.
#[verifier::external_body]
fn saturated_into_u32(t: u64) -> (r: u32)
    ensures
        r == saturated(t),
{
    t.saturated_into::<u32>()
}

/// The dispatchable calls of the DAO pallet.
pub struct Pallet;

impl Pallet {
    /// Reports the token balance of `who`; the caller must be signed.
    pub fn call_balances<A, I: TokenInterface<A>>(tokens: &I, origin: Origin<A>, who: A) -> (r: Result<Event<A>, DispatchError<Error>>)
        ensures
            match r {
                Ok(ev) => signer(origin) is Some && ev == Event::CallBalances(tokens.spec_balance_of(who), who),
                Err(e) => signer(origin) is None && e == DispatchError::<Error>::BadOrigin,
            },
    {
        match ensure_signed(origin) {
            Ok(_) => {},
            Err(_) => return Err(DispatchError::BadOrigin),
        }
        let balance = tokens._balanceOf(&who);
        Ok(Event::CallBalances(balance, who))
    }

    /// Reports the current time `now`; the caller must be signed.
    pub fn get_current_time<A>(origin: Origin<A>, now: u64) -> (r: Result<Event<A>, DispatchError<Error>>)
        ensures
            match r {
                Ok(ev) => signer(origin) is Some && ev == Event::<A>::CallCurrentTime(now as u128),
                Err(e) => signer(origin) is None && e == DispatchError::<Error>::BadOrigin,
            },
    {
        match ensure_signed(origin) {
            Ok(_) => {},
            Err(_) => return Err(DispatchError::BadOrigin),
        }
        Ok(Event::CallCurrentTime(now as u128))
    }

    /// Declared as expensive, but reports that it used only a small weight,
    /// with the fee paid; it accepts any origin.
    pub fn expensive_or_cheap<A>(origin: Origin<A>, input: u64) -> (r: Result<PostDispatchInfo, DispatchError<Error>>)
        ensures
            r == Ok::<PostDispatchInfo, DispatchError<Error>>(
                PostDispatchInfo { actual_weight: Some(CHEAP_CALL_WEIGHT), pays_fee: Pays::Yes },
            ),
    {
        Ok(PostDispatchInfo { actual_weight: Some(CHEAP_CALL_WEIGHT), pays_fee: Pays::Yes })
    }

    /// Founds the DAO at time `now`: sets its curator and the deposit that a
    /// proposal requires, records `now` (in blocks) as the last time the
    /// quorum was met, and starts the quorum divisor at 7. The caller must be
    /// signed.
    #[allow(non_snake_case)]
    pub fn DAO<A>(origin: Origin<A>, _currator: A, _proposalDeposit: u128, now: u64) -> (r: Result<DaoSettings<A>, DispatchError<Error>>)
        ensures
            match r {
                Ok(s) => {
                    &&& signer(origin) is Some
                    &&& s == DaoSettings {
                        curator: _currator,
                        proposal_deposit: _proposalDeposit,
                        last_time_min_quorum_met: saturated(now),
                        min_quorum_divisor: INITIAL_MIN_QUORUM_DIVISOR,
                    }
                    &&& s.min_quorum_divisor == 7
                    &&& s.last_time_min_quorum_met as u64 == (if now <= u32::MAX as u64 {
                        now
                    } else {
                        u32::MAX as u64
                    })
                },
                Err(e) => signer(origin) is None && e == DispatchError::<Error>::BadOrigin,
            },
    {
        match ensure_signed(origin) {
            Ok(_) => {},
            Err(_) => return Err(DispatchError::BadOrigin),
        }
        let time_current = saturated_into_u32(now);
        Ok(DaoSettings {
            curator: _currator,
            proposal_deposit: _proposalDeposit,
            last_time_min_quorum_met: time_current,
            min_quorum_divisor: INITIAL_MIN_QUORUM_DIVISOR,
        })
    }
}

} // verus!
