//! Token storage held in memory, for accounts numbered by `u64`.

use vstd::prelude::*;
use std::collections::HashMap;
use crate::token::{balance_of, TokenInterface, TokenStorage, TokenStore};

verus! {

/// The token pallet's storage kept in hash maps.
pub struct MemoryStore {
    name: Vec<u8>,
    symbol: Vec<u8>,
    decimals: u8,
    total_supply: u128,
    owner: Option<u64>,
    balances: HashMap<u64, u128>,
    /// Allowances by owner, then by spender.
    allowed: HashMap<u64, HashMap<u64, u128>>,
}

impl MemoryStore {
    /// Allowances as one map keyed by `(owner, spender)`.
    pub closed spec fn allowed_view(&self) -> Map<(u64, u64), u128> {
        Map::new(
            |k: (u64, u64)| self.allowed@.contains_key(k.0) && self.allowed@[k.0]@.contains_key(k.1),
            |k: (u64, u64)| self.allowed@[k.0]@[k.1],
        )
    }

    /// Storage with nothing in it.
    pub fn new() -> (r: Self)
        ensures
            r.storage() == (TokenStorage::<u64> {
                name: Seq::empty(),
                symbol: Seq::empty(),
                decimals: 0,
                total_supply: 0,
                owner: None,
                balances: Map::empty(),
                allowed: Map::empty(),
            }),
    {
        let r = MemoryStore {
            name: Vec::new(),
            symbol: Vec::new(),
            decimals: 0,
            total_supply: 0,
            owner: None,
            balances: HashMap::new(),
            allowed: HashMap::new(),
        };
        assert(r.allowed_view() =~= Map::empty());
        r
    }
}

/// A copy of a byte vector.
fn copy_bytes(v: &Vec<u8>) -> (r: Vec<u8>)
    ensures
        r@ == v@,
{
    let mut r: Vec<u8> = Vec::new();
    let mut i: usize = 0;
    while i < v.len()
        invariant
            i <= v.len(),
            r@ == v@.subrange(0, i as int),
        decreases v.len() - i,
    {
        r.push(v[i]);
        i = i + 1;
        assert(r@ =~= v@.subrange(0, i as int));
    }
    assert(v@.subrange(0, v.len() as int) =~= v@);
    r
}

impl TokenStore<u64> for MemoryStore {
    closed spec fn storage(&self) -> TokenStorage<u64> {
        TokenStorage {
            name: self.name@,
            symbol: self.symbol@,
            decimals: self.decimals,
            total_supply: self.total_supply,
            owner: self.owner,
            balances: self.balances@,
            allowed: self.allowed_view(),
        }
    }

    fn balances(&self, who: &u64) -> (r: Option<u128>) {
        match self.balances.get(who) {
            Some(v) => Some(*v),
            None => None,
        }
    }

    fn allowed(&self, owner: &u64, spender: &u64) -> (r: Option<u128>) {
        match self.allowed.get(owner) {
            Some(inner) => match inner.get(spender) {
                Some(v) => Some(*v),
                None => None,
            },
            None => None,
        }
    }

    fn _name(&self) -> (r: Vec<u8>) {
        copy_bytes(&self.name)
    }

    fn symbol(&self) -> (r: Vec<u8>) {
        copy_bytes(&self.symbol)
    }

    fn decimals(&self) -> (r: u8) {
        self.decimals
    }

    fn totalSupply(&self) -> (r: u128) {
        self.total_supply
    }

    fn owner(&self) -> (r: Option<u64>) {
        self.owner
    }

    fn set_balance(&mut self, who: &u64, value: u128) {
        self.balances.insert(*who, value);
    }

    fn set_allowance(&mut self, owner: &u64, spender: &u64, value: u128) {
        let ghost before = self.allowed_view();
        let mut inner = match self.allowed.remove(owner) {
            Some(m) => m,
            None => HashMap::new(),
        };
        inner.insert(*spender, value);
        self.allowed.insert(*owner, inner);
        assert(self.allowed_view() =~= before.insert((*owner, *spender), value));
    }

    fn set_name(&mut self, name: &Vec<u8>) {
        self.name = copy_bytes(name);
    }

    fn set_symbol(&mut self, symbol: &Vec<u8>) {
        self.symbol = copy_bytes(symbol);
    }

    fn set_decimals(&mut self, decimals: u8) {
        self.decimals = decimals;
    }

    fn set_total_supply(&mut self, total_supply: u128) {
        self.total_supply = total_supply;
    }

    fn set_owner(&mut self, owner: &u64) {
        self.owner = Some(*owner);
    }
}

/// The balance that the token interface reports for an account is the one
/// stored for it, zero where none is stored.
pub proof fn lemma_reported_balance_is_stored(m: MemoryStore, who: u64)
    ensures
        m.spec_balance_of(who) == (if m.storage().balances.contains_key(who) {
            m.storage().balances[who]
        } else {
            0
        }),
{
}

impl TokenInterface<u64> for MemoryStore {
    open spec fn spec_balance_of(&self, who: u64) -> u128 {
        balance_of(self.storage().balances, who)
    }

    fn _balanceOf(&self, who: &u64) -> (r: u128)
        ensures
            r == (if self.storage().balances.contains_key(*who) {
                self.storage().balances[*who]
            } else {
                0
            }),
    {
        match self.balances.get(who) {
            Some(v) => *v,
            None => 0,
        }
    }
}

} // verus!
