//! The token pallet: balances, allowances and the three dispatchable calls
//! `approve`, `transfer` and `transferFrom`, plus the genesis build.
//!
//! Missing balances and allowances read as zero. Every failing call leaves
//! storage exactly as it found it.

use vstd::prelude::*;
use crate::dispatch::{ensure_signed, signer, DispatchError, Origin};

verus! {

/// Descriptive data of a token.
#[derive(Clone, Debug)]
pub struct TokenInfoStruct {
    pub name: Vec<u8>,
    pub symbol: Vec<u8>,
    pub decimals: u8,
    pub total_supply: u128,
}

impl Default for TokenInfoStruct {
    fn default() -> (r: Self)
        ensures
            r.name@.len() == 0,
            r.symbol@.len() == 0,
            r.decimals == 0,
            r.total_supply == 0,
    {
        TokenInfoStruct { name: Vec::new(), symbol: Vec::new(), decimals: 0, total_supply: 0 }
    }
}

/// Events that the token pallet deposits.
#[derive(PartialEq, Eq, Structural, Clone, Copy, Debug)]
pub enum Event<A> {
    /// `(from, to, amount)`
    Transfered(A, A, u128),
    /// `(spender, from, to, amount)`
    TransferedFrom(A, A, A, u128),
    /// `(owner, spender, amount)`
    Approval(A, A, u128),
}

/// Errors of the token pallet.
#[derive(PartialEq, Eq, Structural, Clone, Copy, Debug)]
pub enum Error {
    NoneValue,
    StorageOverflow,
    InsufficientFunds,
}

/// The abstract content of the token pallet's storage.
#[verifier::reject_recursive_types(A)]
pub struct TokenStorage<A> {
    pub name: Seq<u8>,
    pub symbol: Seq<u8>,
    pub decimals: u8,
    pub total_supply: u128,
    pub owner: Option<A>,
    /// Balance of each account that has one stored.
    pub balances: Map<A, u128>,
    /// Allowance stored under `(owner, spender)`.
    pub allowed: Map<(A, A), u128>,
}

/// Storage of the token pallet, as a set of values and maps.
pub trait TokenStore<A> {
    spec fn storage(&self) -> TokenStorage<A>;

    fn balances(&self, who: &A) -> (r: Option<u128>)
        ensures
            r == self.storage().balances.get(*who),
    ;

    fn allowed(&self, owner: &A, spender: &A) -> (r: Option<u128>)
        ensures
            r == self.storage().allowed.get((*owner, *spender)),
    ;

    #[allow(non_snake_case)]
    fn _name(&self) -> (r: Vec<u8>)
        ensures
            r@ == self.storage().name,
    ;

    fn symbol(&self) -> (r: Vec<u8>)
        ensures
            r@ == self.storage().symbol,
    ;

    fn decimals(&self) -> (r: u8)
        ensures
            r == self.storage().decimals,
    ;

    #[allow(non_snake_case)]
    fn totalSupply(&self) -> (r: u128)
        ensures
            r == self.storage().total_supply,
    ;

    fn owner(&self) -> (r: Option<A>)
        ensures
            r == self.storage().owner,
    ;

    fn set_balance(&mut self, who: &A, value: u128)
        ensures
            final(self).storage() == (TokenStorage {
                balances: old(self).storage().balances.insert(*who, value),
                ..old(self).storage()
            }),
    ;

    fn set_allowance(&mut self, owner: &A, spender: &A, value: u128)
        ensures
            final(self).storage() == (TokenStorage {
                allowed: old(self).storage().allowed.insert((*owner, *spender), value),
                ..old(self).storage()
            }),
    ;

    fn set_name(&mut self, name: &Vec<u8>)
        ensures
            final(self).storage() == (TokenStorage { name: name@, ..old(self).storage() }),
    ;

    fn set_symbol(&mut self, symbol: &Vec<u8>)
        ensures
            final(self).storage() == (TokenStorage { symbol: symbol@, ..old(self).storage() }),
    ;

    fn set_decimals(&mut self, decimals: u8)
        ensures
            final(self).storage() == (TokenStorage { decimals, ..old(self).storage() }),
    ;

    fn set_total_supply(&mut self, total_supply: u128)
        ensures
            final(self).storage() == (TokenStorage { total_supply, ..old(self).storage() }),
    ;

    fn set_owner(&mut self, owner: &A)
        ensures
            final(self).storage() == (TokenStorage { owner: Some(*owner), ..old(self).storage() }),
    ;
}

/// The token pallet's view of balances as seen by other pallets.
pub trait TokenInterface<A> {
    spec fn spec_balance_of(&self, who: A) -> u128;

    /// The balance of `who`, zero where none is stored.
    #[allow(non_snake_case)]
    fn _balanceOf(&self, who: &A) -> (r: u128)
        ensures
            r == self.spec_balance_of(*who),
    ;
}

/// A stored value, or zero where there is none.
pub open spec fn or_zero(v: Option<u128>) -> u128 {
    match v {
        Some(x) => x,
        None => 0,
    }
}

/// The balance of `who`, zero where none is stored.
pub open spec fn balance_of<A>(balances: Map<A, u128>, who: A) -> u128 {
    or_zero(balances.get(who))
}

/// The allowance of `spender` over the funds of `owner`, zero where none is stored.
pub open spec fn allowance_of<A>(allowed: Map<(A, A), u128>, owner: A, spender: A) -> u128 {
    or_zero(allowed.get((owner, spender)))
}

/// Whether moving `amount` from `from` to `to` neither takes `from` below zero
/// nor takes `to` (as it was before the move) above `u128::MAX`.
pub open spec fn can_move<A>(balances: Map<A, u128>, from: A, to: A, amount: u128) -> bool {
    &&& amount <= balance_of(balances, from)
    &&& balance_of(balances, to) + amount <= u128::MAX
}

/// The balances after a move of `amount` from `from` to `to`: both new
/// balances are computed from the balances before the move, and the one of
/// `to` is written last.
pub open spec fn moved<A>(balances: Map<A, u128>, from: A, to: A, amount: u128) -> Map<A, u128> {
    balances.insert(from, (balance_of(balances, from) - amount) as u128).insert(
        to,
        (balance_of(balances, to) + amount) as u128,
    )
}

/// Whether `spender` may move `amount` of `from`'s funds to `to`.
pub open spec fn can_move_from<A>(s: TokenStorage<A>, spender: A, from: A, to: A, amount: u128) -> bool {
    &&& amount <= allowance_of(s.allowed, from, spender)
    &&& can_move(s.balances, from, to, amount)
}

/// Storage after `spender` moved `amount` of `from`'s funds to `to`.
pub open spec fn moved_from<A>(s: TokenStorage<A>, spender: A, from: A, to: A, amount: u128) -> TokenStorage<A> {
    TokenStorage {
        allowed: s.allowed.insert(
            (from, spender),
            (allowance_of(s.allowed, from, spender) - amount) as u128,
        ),
        balances: moved(s.balances, from, to, amount),
        ..s
    }
}

/// Storage after `owner` allowed `spender` to spend `value` of its funds.
pub open spec fn approved<A>(s: TokenStorage<A>, owner: A, spender: A, value: u128) -> TokenStorage<A> {
    TokenStorage { allowed: s.allowed.insert((owner, spender), value), ..s }
}

/// A call of the token pallet, with the origin that dispatched it.
pub enum TokenCall<A> {
    Approve { origin: Origin<A>, spender: A, value: u128 },
    Transfer { origin: Origin<A>, to: A, amount: u128 },
    TransferFrom { origin: Origin<A>, from: A, to: A, amount: u128 },
}

/// Whether `call` succeeds on storage `s`.
pub open spec fn succeeds<A>(s: TokenStorage<A>, call: TokenCall<A>) -> bool {
    match call {
        TokenCall::Approve { origin, .. } => signer(origin) is Some,
        TokenCall::Transfer { origin, to, amount } => {
            &&& signer(origin) is Some
            &&& can_move(s.balances, signer(origin)->0, to, amount)
        },
        TokenCall::TransferFrom { origin, from, to, amount } => {
            &&& signer(origin) is Some
            &&& can_move_from(s, signer(origin)->0, from, to, amount)
        },
    }
}

/// Storage after `call` ran on `s`: unchanged where the call fails.
pub open spec fn after<A>(s: TokenStorage<A>, call: TokenCall<A>) -> TokenStorage<A> {
    if !succeeds(s, call) {
        s
    } else {
        match call {
            TokenCall::Approve { origin, spender, value } => approved(s, signer(origin)->0, spender, value),
            TokenCall::Transfer { origin, to, amount } => TokenStorage {
                balances: moved(s.balances, signer(origin)->0, to, amount),
                ..s
            },
            TokenCall::TransferFrom { origin, from, to, amount } => moved_from(
                s,
                signer(origin)->0,
                from,
                to,
                amount,
            ),
        }
    }
}

/// The dispatchable calls of the token pallet.
pub struct Pallet;

impl Pallet {
    /// The balance of `who`, zero where none is stored.
    pub fn balance_of<A, S: TokenStore<A>>(store: &S, who: &A) -> (r: u128)
        ensures
            r == balance_of(store.storage().balances, *who),
    {
        match store.balances(who) {
            Some(b) => b,
            None => 0,
        }
    }

    /// The signer of `origin` allows `spender` to spend `value` of its funds,
    /// replacing any earlier allowance.
    pub fn approve<A, S: TokenStore<A>>(store: &mut S, origin: Origin<A>, spender: A, value: u128) -> (r: Result<Event<A>, DispatchError<Error>>)
        ensures
            r is Ok <==> succeeds(old(store).storage(), (TokenCall::Approve { origin, spender, value })),
            final(store).storage() == after(old(store).storage(), (TokenCall::Approve { origin, spender, value })),
            match r {
                Ok(ev) => {
                    let sender = signer(origin)->0;
                    &&& signer(origin) is Some
                    &&& final(store).storage() == approved(old(store).storage(), sender, spender, value)
                    &&& ev == Event::Approval(sender, spender, value)
                },
                Err(e) => {
                    &&& signer(origin) is None
                    &&& e == DispatchError::<Error>::BadOrigin
                    &&& final(store).storage() == old(store).storage()
                },
            },
    {
        let sender = match ensure_signed(origin) {
            Ok(who) => who,
            Err(_) => return Err(DispatchError::BadOrigin),
        };
        store.set_allowance(&sender, &spender, value);
        Ok(Event::Approval(sender, spender, value))
    }

    /// The signer of `origin` moves `amount` of its funds to `to`.
    ///
    /// Fails with `StorageOverflow` when the signer has less than `amount` or
    /// when `to`'s balance would pass `u128::MAX`.
    pub fn transfer<A, S: TokenStore<A>>(store: &mut S, origin: Origin<A>, to: A, amount: u128) -> (r: Result<Event<A>, DispatchError<Error>>)
        ensures
            r is Ok <==> succeeds(old(store).storage(), (TokenCall::Transfer { origin, to, amount })),
            final(store).storage() == after(old(store).storage(), (TokenCall::Transfer { origin, to, amount })),
            match r {
                Ok(ev) => {
                    let sender = signer(origin)->0;
                    &&& signer(origin) is Some
                    &&& can_move(old(store).storage().balances, sender, to, amount)
                    &&& final(store).storage() == (TokenStorage {
                        balances: moved(old(store).storage().balances, sender, to, amount),
                        ..old(store).storage()
                    })
                    &&& ev == Event::Transfered(sender, to, amount)
                },
                Err(DispatchError::BadOrigin) => {
                    &&& signer(origin) is None
                    &&& final(store).storage() == old(store).storage()
                },
                Err(DispatchError::Module(e)) => {
                    &&& signer(origin) is Some
                    &&& !can_move(old(store).storage().balances, signer(origin)->0, to, amount)
                    &&& e == Error::StorageOverflow
                    &&& final(store).storage() == old(store).storage()
                },
            },
    {
        let sender = match ensure_signed(origin) {
            Ok(who) => who,
            Err(_) => return Err(DispatchError::BadOrigin),
        };
        let sender_balance = Self::balance_of(store, &sender);
        let new_balance = match sender_balance.checked_sub(amount) {
            Some(v) => v,
            None => return Err(DispatchError::Module(Error::StorageOverflow)),
        };
        let receiver_balance = Self::balance_of(store, &to);
        let new_receiver_balance = match receiver_balance.checked_add(amount) {
            Some(v) => v,
            None => return Err(DispatchError::Module(Error::StorageOverflow)),
        };
        store.set_balance(&sender, new_balance);
        store.set_balance(&to, new_receiver_balance);
        Ok(Event::Transfered(sender, to, amount))
    }
    /// The signer of `origin` moves `amount` of `from`'s funds to `to`,
    /// spending that much of the allowance `from` gave it.
    ///
    /// Fails with `StorageOverflow` when the allowance or `from`'s balance is
    /// below `amount`, or when `to`'s balance would pass `u128::MAX`.
    #[allow(non_snake_case)]
    pub fn transferFrom<A, S: TokenStore<A>>(store: &mut S, origin: Origin<A>, from: A, to: A, amount: u128) -> (r: Result<Event<A>, DispatchError<Error>>)
        ensures
            r is Ok <==> succeeds(old(store).storage(), (TokenCall::TransferFrom { origin, from, to, amount })),
            final(store).storage() == after(old(store).storage(), (TokenCall::TransferFrom { origin, from, to, amount })),
            match r {
                Ok(ev) => {
                    let sender = signer(origin)->0;
                    &&& signer(origin) is Some
                    &&& can_move_from(old(store).storage(), sender, from, to, amount)
                    &&& final(store).storage() == moved_from(old(store).storage(), sender, from, to, amount)
                    &&& ev == Event::TransferedFrom(sender, from, to, amount)
                },
                Err(DispatchError::BadOrigin) => {
                    &&& signer(origin) is None
                    &&& final(store).storage() == old(store).storage()
                },
                Err(DispatchError::Module(e)) => {
                    &&& signer(origin) is Some
                    &&& !can_move_from(old(store).storage(), signer(origin)->0, from, to, amount)
                    &&& e == Error::StorageOverflow
                    &&& final(store).storage() == old(store).storage()
                },
            },
    {
        let sender = match ensure_signed(origin) {
            Ok(who) => who,
            Err(_) => return Err(DispatchError::BadOrigin),
        };
        let sender_allowed_balance = match store.allowed(&from, &sender) {
            Some(v) => v,
            None => 0,
        };
        let new_allowed_balance = match sender_allowed_balance.checked_sub(amount) {
            Some(v) => v,
            None => return Err(DispatchError::Module(Error::StorageOverflow)),
        };
        let from_balance = Self::balance_of(store, &from);
        let new_from_balance = match from_balance.checked_sub(amount) {
            Some(v) => v,
            None => return Err(DispatchError::Module(Error::StorageOverflow)),
        };
        let receiver_balance = Self::balance_of(store, &to);
        let new_receiver_balance = match receiver_balance.checked_add(amount) {
            Some(v) => v,
            None => return Err(DispatchError::Module(Error::StorageOverflow)),
        };
        store.set_allowance(&from, &sender, new_allowed_balance);
        store.set_balance(&from, new_from_balance);
        store.set_balance(&to, new_receiver_balance);
        Ok(Event::TransferedFrom(sender, from, to, amount))
    }
}

/// The token's configuration at genesis.
pub struct GenesisConfig<A> {
    pub name: Vec<u8>,
    pub symbol: Vec<u8>,
    pub decimals: u8,
    pub total_supply: u128,
    pub owner: Option<A>,
}

impl<A> Default for GenesisConfig<A> {
    fn default() -> (r: Self)
        ensures
            r.name@.len() == 0,
            r.symbol@.len() == 0,
            r.decimals == 0,
            r.total_supply == 0,
            r.owner is None,
    {
        GenesisConfig { name: Vec::new(), symbol: Vec::new(), decimals: 0, total_supply: 0, owner: None }
    }
}

/// Storage after a genesis build from `config`, whose owner is set.
pub open spec fn built<A>(s: TokenStorage<A>, config: GenesisConfig<A>) -> TokenStorage<A> {
    let owner = config.owner->0;
    TokenStorage {
        name: config.name@,
        symbol: config.symbol@,
        decimals: config.decimals,
        total_supply: config.total_supply,
        owner: Some(owner),
        balances: s.balances.insert(owner, config.total_supply),
        ..s
    }
}

impl<A> GenesisConfig<A> {
    /// Writes the token's data and gives the whole supply to the owner.
    pub fn build<S: TokenStore<A>>(&self, store: &mut S)
        requires
            self.owner is Some,
        ensures
            final(store).storage() == built(old(store).storage(), *self),
    {
        let owner = match &self.owner {
            Some(o) => o,
            None => return,
        };
        store.set_name(&self.name);
        store.set_symbol(&self.symbol);
        store.set_decimals(self.decimals);
        store.set_total_supply(self.total_supply);
        store.set_owner(owner);
        store.set_balance(owner, self.total_supply);
    }
}

} // verus!
