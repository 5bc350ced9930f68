//! Origins of calls and the errors a dispatchable function can end with.

use vstd::prelude::*;

verus! {

/// Who dispatched a call.
pub enum Origin<A> {
    /// The system itself, with full privileges.
    Root,
    /// An account that signed the extrinsic.
    Signed(A),
    /// An unsigned extrinsic (an inherent, for instance).
    Unsigned,
}

/// The account behind an origin, if it is a signed one.
pub open spec fn signer<A>(origin: Origin<A>) -> Option<A> {
    match origin {
        Origin::Signed(who) => Some(who),
        _ => None,
    }
}

/// The error of a call whose origin is not a signed account.
#[derive(PartialEq, Eq, Structural, Clone, Copy, Debug)]
pub struct BadOrigin;

/// Why a dispatchable function failed: a bad origin, or an error of the
/// pallet itself.
#[derive(PartialEq, Eq, Structural, Clone, Copy, Debug)]
pub enum DispatchError<E> {
    BadOrigin,
    Module(E),
}

/// Returns the signer of a signed origin, and `BadOrigin` for any other.
pub fn ensure_signed<A>(origin: Origin<A>) -> (r: Result<A, BadOrigin>)
    ensures
        match r {
            Ok(who) => signer(origin) == Some(who),
            Err(_) => signer(origin) is None,
        },
{
    match origin {
        Origin::Signed(who) => Ok(who),
        _ => Err(BadOrigin),
    }
}

/// What a dispatchable function reports about its own cost once it ran.
#[derive(PartialEq, Eq, Structural, Clone, Copy, Debug)]
pub struct PostDispatchInfo {
    /// The weight (in reference time) actually used, when it differs from the
    /// declared one.
    pub actual_weight: Option<u64>,
    /// Whether the caller pays the fee for the call.
    pub pays_fee: Pays,
}

/// Whether a call's fee is paid.
#[derive(PartialEq, Eq, Structural, Clone, Copy, Debug)]
pub enum Pays {
    Yes,
    No,
}

} // verus!
