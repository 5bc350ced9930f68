//! What the token pallet's calls keep and undo, stated over the storage that
//! their contracts describe.

use vstd::prelude::*;
use crate::dispatch::{signer, Origin};
use crate::token::{
    after, allowance_of, approved, balance_of, built, can_move, can_move_from, moved, moved_from,
    succeeds, GenesisConfig, TokenCall, TokenStorage,
};

verus! {

/// The sum of all stored balances of a finite balance map.
pub open spec fn total_balance<A>(m: Map<A, u128>) -> int
    decreases m.dom().len(),
{
    if m.dom().finite() && m.dom().len() > 0 {
        let k = m.dom().choose();
        m[k] + total_balance(m.remove(k))
    } else {
        0
    }
}

/// The supply recorded in storage is what the balances add up to.
pub open spec fn supply_matches<A>(s: TokenStorage<A>) -> bool {
    &&& s.balances.dom().finite()
    &&& total_balance(s.balances) == s.total_supply
}

/// Any stored balance can be taken out of the total first.
proof fn lemma_total_remove<A>(m: Map<A, u128>, k: A)
    requires
        m.dom().finite(),
        m.dom().contains(k),
    ensures
        total_balance(m) == m[k] + total_balance(m.remove(k)),
    decreases m.dom().len(),
{
    let c = m.dom().choose();
    if c != k {
        lemma_total_remove(m.remove(c), k);
        lemma_total_remove(m.remove(k), c);
        assert(m.remove(c).remove(k) =~= m.remove(k).remove(c));
    }
}

/// Storing `v` under `k` changes the total by `v` less what `k` held.
proof fn lemma_total_insert<A>(m: Map<A, u128>, k: A, v: u128)
    requires
        m.dom().finite(),
    ensures
        m.insert(k, v).dom().finite(),
        total_balance(m.insert(k, v)) == total_balance(m) - balance_of(m, k) + v,
{
    let m2 = m.insert(k, v);
    lemma_total_remove(m2, k);
    if m.dom().contains(k) {
        lemma_total_remove(m, k);
        assert(m2.remove(k) =~= m.remove(k));
    } else {
        assert(m2.remove(k) =~= m);
    }
}

/// A move between two different accounts keeps their combined balance and
/// touches no other account.
pub proof fn lemma_move_conserves<A>(balances: Map<A, u128>, from: A, to: A, amount: u128)
    requires
        from != to,
        can_move(balances, from, to, amount),
    ensures
        balance_of(moved(balances, from, to, amount), from) == balance_of(balances, from) - amount,
        balance_of(moved(balances, from, to, amount), to) == balance_of(balances, to) + amount,
        forall|k: A|
            k != from && k != to ==> #[trigger] moved(balances, from, to, amount).get(k)
                == balances.get(k),
{
}

/// A move between two different accounts keeps the sum of all balances.
pub proof fn lemma_move_keeps_total<A>(balances: Map<A, u128>, from: A, to: A, amount: u128)
    requires
        balances.dom().finite(),
        from != to,
        can_move(balances, from, to, amount),
    ensures
        moved(balances, from, to, amount).dom().finite(),
        total_balance(moved(balances, from, to, amount)) == total_balance(balances),
{
    let b1 = balances.insert(from, (balance_of(balances, from) - amount) as u128);
    lemma_total_insert(balances, from, (balance_of(balances, from) - amount) as u128);
    lemma_total_insert(b1, to, (balance_of(balances, to) + amount) as u128);
}

/// A move of an account to itself that succeeds credits it with the amount:
/// both balances are read before either is written.
pub proof fn lemma_move_to_self_credits<A>(balances: Map<A, u128>, who: A, amount: u128)
    requires
        can_move(balances, who, who, amount),
    ensures
        balance_of(moved(balances, who, who, amount), who) == balance_of(balances, who) + amount,
{
}

/// Moving an amount back after moving it between two different accounts
/// succeeds and restores every balance (a missing one as a stored zero).
pub proof fn lemma_move_round_trip<A>(balances: Map<A, u128>, from: A, to: A, amount: u128)
    requires
        from != to,
        can_move(balances, from, to, amount),
    ensures
        can_move(moved(balances, from, to, amount), to, from, amount),
        moved(moved(balances, from, to, amount), to, from, amount) == balances.insert(
            from,
            balance_of(balances, from),
        ).insert(to, balance_of(balances, to)),
{
    let once = moved(balances, from, to, amount);
    let twice = moved(once, to, from, amount);
    assert(twice =~= balances.insert(from, balance_of(balances, from)).insert(
        to,
        balance_of(balances, to),
    ));
}

/// An approval is read back as the allowance it set, and changes no other
/// allowance and no balance.
pub proof fn lemma_approve_reads_back<A>(s: TokenStorage<A>, owner: A, spender: A, value: u128)
    ensures
        allowance_of(approved(s, owner, spender, value).allowed, owner, spender) == value,
        forall|o: A, p: A|
            (o, p) != (owner, spender) ==> #[trigger] allowance_of(
                approved(s, owner, spender, value).allowed,
                o,
                p,
            ) == allowance_of(s.allowed, o, p),
        approved(s, owner, spender, value).balances == s.balances,
{
}

/// Spending through an allowance uses it up by exactly the amount moved,
/// never more than was allowed, and changes no other allowance.
pub proof fn lemma_move_from_spends_allowance<A>(
    s: TokenStorage<A>,
    spender: A,
    from: A,
    to: A,
    amount: u128,
)
    requires
        can_move_from(s, spender, from, to, amount),
    ensures
        amount <= allowance_of(s.allowed, from, spender),
        allowance_of(moved_from(s, spender, from, to, amount).allowed, from, spender)
            == allowance_of(s.allowed, from, spender) - amount,
        forall|o: A, p: A|
            (o, p) != (from, spender) ==> #[trigger] allowance_of(
                moved_from(s, spender, from, to, amount).allowed,
                o,
                p,
            ) == allowance_of(s.allowed, o, p),
{
}

/// A genesis build on storage without balances makes the balances add up to
/// the total supply, all of it held by the owner.
pub proof fn lemma_genesis_supply<A>(s: TokenStorage<A>, config: GenesisConfig<A>)
    requires
        config.owner is Some,
        s.balances == Map::<A, u128>::empty(),
    ensures
        supply_matches(built(s, config)),
        balance_of(built(s, config).balances, config.owner->0) == config.total_supply,
{
    lemma_total_insert(s.balances, config.owner->0, config.total_supply);
    assert(total_balance(s.balances) == 0);
}

/// Approvals keep the balances adding up to the total supply.
pub proof fn lemma_approve_keeps_supply<A>(s: TokenStorage<A>, owner: A, spender: A, value: u128)
    requires
        supply_matches(s),
    ensures
        supply_matches(approved(s, owner, spender, value)),
{
}

/// Transfers between two different accounts keep the balances adding up to
/// the total supply.
pub proof fn lemma_transfer_keeps_supply<A>(s: TokenStorage<A>, from: A, to: A, amount: u128)
    requires
        supply_matches(s),
        from != to,
        can_move(s.balances, from, to, amount),
    ensures
        supply_matches(TokenStorage { balances: moved(s.balances, from, to, amount), ..s }),
{
    lemma_move_keeps_total(s.balances, from, to, amount);
}

/// Transfers through an allowance between two different accounts keep the
/// balances adding up to the total supply.
pub proof fn lemma_transfer_from_keeps_supply<A>(
    s: TokenStorage<A>,
    spender: A,
    from: A,
    to: A,
    amount: u128,
)
    requires
        supply_matches(s),
        from != to,
        can_move_from(s, spender, from, to, amount),
    ensures
        supply_matches(moved_from(s, spender, from, to, amount)),
{
    lemma_move_keeps_total(s.balances, from, to, amount);
}

/// Storage after the calls of `calls` ran on `s` one after another.
pub open spec fn run<A>(s: TokenStorage<A>, calls: Seq<TokenCall<A>>) -> TokenStorage<A>
    decreases calls.len(),
{
    if calls.len() == 0 {
        s
    } else {
        run(after(s, calls[0]), calls.drop_first())
    }
}

/// Whether `call` is an approval that `owner` signs for `spender`.
pub open spec fn reapproves<A>(call: TokenCall<A>, owner: A, spender: A) -> bool {
    match call {
        TokenCall::Approve { origin, spender: sp, .. } => signer(origin) == Some(owner) && sp == spender,
        _ => false,
    }
}

/// What `call` takes from `owner`'s funds through the allowance it gave
/// `spender`: the amount of a successful `transferFrom` that `spender` signs
/// from `owner`, and nothing otherwise.
pub open spec fn spends<A>(s: TokenStorage<A>, call: TokenCall<A>, owner: A, spender: A) -> int {
    match call {
        TokenCall::TransferFrom { origin, from, amount, .. } => if succeeds(s, call)
            && signer(origin) == Some(spender) && from == owner {
            amount as int
        } else {
            0
        },
        _ => 0,
    }
}

/// The total that the calls of `calls`, run from `s`, take from `owner`'s
/// funds through the allowance it gave `spender`.
pub open spec fn spent<A>(s: TokenStorage<A>, calls: Seq<TokenCall<A>>, owner: A, spender: A) -> int
    decreases calls.len(),
{
    if calls.len() == 0 {
        0
    } else {
        spends(s, calls[0], owner, spender) + spent(after(s, calls[0]), calls.drop_first(), owner, spender)
    }
}

/// One call that is no approval of `spender` by `owner` lowers that allowance
/// by what it spends through it, and keeps it stored where it was.
proof fn lemma_step_allowance<A>(s: TokenStorage<A>, call: TokenCall<A>, owner: A, spender: A)
    requires
        !reapproves(call, owner, spender),
    ensures
        spends(s, call, owner, spender) <= allowance_of(s.allowed, owner, spender),
        allowance_of(after(s, call).allowed, owner, spender) == allowance_of(s.allowed, owner, spender)
            - spends(s, call, owner, spender),
        s.allowed.contains_key((owner, spender)) ==> after(s, call).allowed.contains_key(
            (owner, spender),
        ),
{
}

/// However many calls run, and in whatever order, as long as none of them is
/// a new approval of `spender` by `owner`, the total `spender` takes from
/// `owner` through its allowance stays within that allowance, and what is left
/// of it is the allowance less that total.
pub proof fn lemma_allowance_bounds_spending<A>(
    s: TokenStorage<A>,
    calls: Seq<TokenCall<A>>,
    owner: A,
    spender: A,
)
    requires
        forall|i: int| 0 <= i < calls.len() ==> !reapproves(#[trigger] calls[i], owner, spender),
    ensures
        0 <= spent(s, calls, owner, spender) <= allowance_of(s.allowed, owner, spender),
        allowance_of(run(s, calls).allowed, owner, spender) == allowance_of(s.allowed, owner, spender)
            - spent(s, calls, owner, spender),
        s.allowed.contains_key((owner, spender)) ==> run(s, calls).allowed.contains_key(
            (owner, spender),
        ),
    decreases calls.len(),
{
    if calls.len() > 0 {
        lemma_step_allowance(s, calls[0], owner, spender);
        let rest = calls.drop_first();
        assert forall|i: int| 0 <= i < rest.len() implies !reapproves(#[trigger] rest[i], owner, spender) by {
            assert(rest[i] == calls[i + 1]);
        }
        lemma_allowance_bounds_spending(after(s, calls[0]), rest, owner, spender);
    }
}

/// After `owner` approves `spender` for `value`, any sequence of calls without
/// a new such approval lets `spender` take at most `value` of `owner`'s funds
/// in all, and leaves the allowance stored as `value` less what it took.
pub proof fn lemma_approval_bounds_spending<A>(
    s: TokenStorage<A>,
    owner: A,
    spender: A,
    value: u128,
    calls: Seq<TokenCall<A>>,
)
    requires
        forall|i: int| 0 <= i < calls.len() ==> !reapproves(#[trigger] calls[i], owner, spender),
    ensures
        ({
            let start = after(s, (TokenCall::Approve { origin: Origin::Signed(owner), spender, value }));
            let taken = spent(start, calls, owner, spender);
            &&& 0 <= taken <= value
            &&& run(start, calls).allowed.get((owner, spender)) == Some((value - taken) as u128)
        }),
{
    let start = after(s, (TokenCall::Approve { origin: Origin::Signed(owner), spender, value }));
    assert(start.allowed.contains_key((owner, spender)));
    lemma_allowance_bounds_spending(start, calls, owner, spender);
}

/// The balance of an account is the stored one, zero where none is stored.
pub proof fn lemma_balance_of_reads_storage<A>(balances: Map<A, u128>, who: A)
    ensures
        balance_of(balances, who) == (if balances.contains_key(who) { balances[who] } else { 0 }),
{
}

/// A call from an origin that is not signed fails and changes nothing.
pub proof fn lemma_unsigned_calls_fail<A>(s: TokenStorage<A>, call: TokenCall<A>)
    requires
        match call {
            TokenCall::Approve { origin, .. } => !(origin is Signed),
            TokenCall::Transfer { origin, .. } => !(origin is Signed),
            TokenCall::TransferFrom { origin, .. } => !(origin is Signed),
        },
    ensures
        !succeeds(s, call),
        after(s, call) == s,
{
}

/// `approve` signed by `owner` always succeeds, stores `value` as the
/// allowance of `spender` over `owner`'s funds whatever was there before, and
/// changes nothing else.
pub proof fn lemma_approve_law<A>(s: TokenStorage<A>, owner: A, spender: A, value: u128)
    ensures
        ({
            let call = TokenCall::Approve { origin: Origin::Signed(owner), spender, value };
            let t = after(s, call);
            &&& succeeds(s, call)
            &&& t.allowed.get((owner, spender)) == Some(value)
            &&& forall|k: (A, A)| k != (owner, spender) ==> #[trigger] t.allowed.get(k) == s.allowed.get(k)
            &&& t.balances == s.balances
            &&& t.name == s.name && t.symbol == s.symbol && t.decimals == s.decimals
            &&& t.total_supply == s.total_supply && t.owner == s.owner
        }),
{
    let t = after(s, (TokenCall::Approve { origin: Origin::Signed(owner), spender, value }));
    assert forall|k: (A, A)| k != (owner, spender) implies #[trigger] t.allowed.get(k) == s.allowed.get(k) by {}
}

/// `transfer` signed by `from` succeeds exactly when `from` holds at least
/// `amount` and `to` (as it stood before) can take `amount` more without
/// passing `u128::MAX`. Then `from` is debited and `to` credited from their
/// balances before the call (so a transfer to oneself credits the amount),
/// and nothing else changes; otherwise nothing changes at all.
pub proof fn lemma_transfer_law<A>(s: TokenStorage<A>, from: A, to: A, amount: u128)
    ensures
        ({
            let call = TokenCall::Transfer { origin: Origin::Signed(from), to, amount };
            let fb = if s.balances.contains_key(from) { s.balances[from] } else { 0 };
            let tb = if s.balances.contains_key(to) { s.balances[to] } else { 0 };
            let t = after(s, call);
            &&& succeeds(s, call) <==> (amount <= fb && tb + amount <= u128::MAX)
            &&& succeeds(s, call) ==> {
                &&& from != to ==> t.balances.get(from) == Some((fb - amount) as u128)
                &&& t.balances.get(to) == Some((tb + amount) as u128)
                &&& forall|k: A| k != from && k != to ==> #[trigger] t.balances.get(k) == s.balances.get(k)
                &&& t.allowed == s.allowed
                &&& t.name == s.name && t.symbol == s.symbol && t.decimals == s.decimals
                &&& t.total_supply == s.total_supply && t.owner == s.owner
            }
            &&& !succeeds(s, call) ==> t == s
        }),
{
    let call = TokenCall::Transfer { origin: Origin::Signed(from), to, amount };
    let t = after(s, call);
    if succeeds(s, call) {
        assert forall|k: A| k != from && k != to implies #[trigger] t.balances.get(k) == s.balances.get(k) by {}
    }
}

/// `transferFrom` signed by `spender` succeeds exactly when the allowance
/// `from` gave `spender` and `from`'s balance each cover `amount`, and `to`
/// (as it stood before) can take `amount` more without passing `u128::MAX`;
/// how the allowance compares with the balance plays no part. Then the
/// allowance goes down by `amount`, `from` is debited and `to` credited from
/// their balances before the call (so a move to `from` itself credits the
/// amount), and nothing else changes; otherwise nothing changes at all.
pub proof fn lemma_transfer_from_law<A>(s: TokenStorage<A>, spender: A, from: A, to: A, amount: u128)
    ensures
        ({
            let call = TokenCall::TransferFrom { origin: Origin::Signed(spender), from, to, amount };
            let a = if s.allowed.contains_key((from, spender)) { s.allowed[(from, spender)] } else { 0 };
            let fb = if s.balances.contains_key(from) { s.balances[from] } else { 0 };
            let tb = if s.balances.contains_key(to) { s.balances[to] } else { 0 };
            let t = after(s, call);
            &&& succeeds(s, call) <==> (amount <= a && amount <= fb && tb + amount <= u128::MAX)
            &&& succeeds(s, call) ==> {
                &&& t.allowed.get((from, spender)) == Some((a - amount) as u128)
                &&& forall|k: (A, A)| k != (from, spender) ==> #[trigger] t.allowed.get(k) == s.allowed.get(k)
                &&& from != to ==> t.balances.get(from) == Some((fb - amount) as u128)
                &&& t.balances.get(to) == Some((tb + amount) as u128)
                &&& forall|k: A| k != from && k != to ==> #[trigger] t.balances.get(k) == s.balances.get(k)
                &&& t.name == s.name && t.symbol == s.symbol && t.decimals == s.decimals
                &&& t.total_supply == s.total_supply && t.owner == s.owner
            }
            &&& !succeeds(s, call) ==> t == s
        }),
{
    let call = TokenCall::TransferFrom { origin: Origin::Signed(spender), from, to, amount };
    let t = after(s, call);
    if succeeds(s, call) {
        assert forall|k: A| k != from && k != to implies #[trigger] t.balances.get(k) == s.balances.get(k) by {}
        assert forall|k: (A, A)| k != (from, spender) implies #[trigger] t.allowed.get(k) == s.allowed.get(k) by {}
    }
}

/// A genesis build stores the configuration's name, symbol, decimals, total
/// supply and owner as they are, gives the owner the whole supply, and
/// changes no other balance and no allowance.
pub proof fn lemma_genesis_law<A>(s: TokenStorage<A>, config: GenesisConfig<A>)
    requires
        config.owner is Some,
    ensures
        ({
            let t = built(s, config);
            let owner = config.owner->0;
            &&& t.name == config.name@
            &&& t.symbol == config.symbol@
            &&& t.decimals == config.decimals
            &&& t.total_supply == config.total_supply
            &&& t.owner == config.owner
            &&& t.balances.get(owner) == Some(config.total_supply)
            &&& forall|k: A| k != owner ==> #[trigger] t.balances.get(k) == s.balances.get(k)
            &&& t.allowed == s.allowed
        }),
{
    let t = built(s, config);
    let owner = config.owner->0;
    assert forall|k: A| k != owner implies #[trigger] t.balances.get(k) == s.balances.get(k) by {}
}

} // verus!
