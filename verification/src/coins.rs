//! The coins that go with a transaction, gathered one entry after the other.

use crate::instantiate::Coin;
use vstd::prelude::*;

verus! {

#[verifier::external_type_specification]
#[verifier::external_body]
pub struct ExCoins(cosmwasm_std::Coins);

#[verifier::external_type_specification]
#[verifier::external_body]
pub struct ExStdError(cosmwasm_std::StdError);

/// The amount that a collection of coins holds of each denomination.
pub uninterp spec fn coins_held(coins: cosmwasm_std::Coins) -> Map<Seq<char>, u128>;

/// `cosmwasm_std::Coins::default`: a collection that holds nothing.
#[verifier::external_body]
pub(crate) fn coins_default() -> (r: cosmwasm_std::Coins)
    ensures
        coins_held(r) == no_coins(),
{
    cosmwasm_std::Coins::default()
}

/// `cosmwasm_std::Coins::add`: a zero amount changes nothing; a new
/// denomination is entered with the amount; one that is there has the amount
/// added to its own, unless the sum leaves 128 bits: then the call fails and
/// nothing changes.
#[verifier::external_body]
pub(crate) fn coins_add(coins: &mut cosmwasm_std::Coins, denom: String, amount: u128) -> (r: Result<
    (),
    cosmwasm_std::StdError,
>)
    ensures
        r is Ok == (coins_added(coins_held(*old(coins)), denom@, amount) is Some),
        coins_held(*final(coins)) == (match coins_added(coins_held(*old(coins)), denom@, amount) {
            Some(held) => held,
            None => coins_held(*old(coins)),
        }),
{
    coins.add(cosmwasm_std::Coin { denom, amount: cosmwasm_std::Uint128::new(amount) })
}

/// `cosmwasm_std::Coins::to_vec`: each denomination that is held, once, with
/// its amount.
#[verifier::external_body]
pub(crate) fn coins_to_vec(coins: &cosmwasm_std::Coins) -> (r: Vec<Coin>)
    ensures
        lists_coins(r@, coins_held(*coins)),
{
    coins.to_vec().into_iter().map(|c| Coin { denom: c.denom, amount: c.amount.u128() }).collect()
}

/// What a collection without coins holds.
pub open spec fn no_coins() -> Map<Seq<char>, u128> {
    Map::empty()
}

/// What a collection holds once `amount` of `denom` is added: nothing else
/// where the amount is zero, and nothing at all where the sum for the
/// denomination leaves 128 bits.
pub open spec fn coins_added(held: Map<Seq<char>, u128>, denom: Seq<char>, amount: u128) -> Option<
    Map<Seq<char>, u128>,
> {
    if amount == 0 {
        Some(held)
    } else if !held.contains_key(denom) {
        Some(held.insert(denom, amount))
    } else if held[denom] + amount <= u128::MAX {
        Some(held.insert(denom, (held[denom] + amount) as u128))
    } else {
        None
    }
}

/// What is gathered once `entry` is taken: the coin added where there is one
/// and it can be held, and what was gathered before in every other case.
pub open spec fn gathered(held: Map<Seq<char>, u128>, entry: Option<Coin>) -> Map<Seq<char>, u128> {
    match entry {
        None => held,
        Some(coin) => match coins_added(held, coin.denom@, coin.amount) {
            Some(more) => more,
            None => held,
        },
    }
}

/// Whether `all` lists `held`: each denomination once, with its amount.
pub open spec fn lists_coins(all: Seq<Coin>, held: Map<Seq<char>, u128>) -> bool {
    &&& forall|i: int|
        0 <= i < all.len() ==> held.contains_key((#[trigger] all[i]).denom@) && held[all[i].denom@]
            == all[i].amount
    &&& forall|k: Seq<char>|
        held.contains_key(k) ==> exists|i: int| 0 <= i < all.len() && (#[trigger] all[i]).denom@ == k
    &&& forall|i: int, j: int|
        0 <= i < j < all.len() ==> (#[trigger] all[i]).denom@ != (#[trigger] all[j]).denom@
}

/// Why the coins could not be gathered.
#[derive(Debug, Clone, Copy, PartialEq, Eq, Structural)]
pub enum CoinsError {
    /// The amounts of one denomination add up to more than can be held.
    Overflow,
}

/// What the caller is to do next.
#[derive(Debug, PartialEq, Eq)]
pub enum CoinsAction {
    /// Ask for another coin.
    Ask,
    /// The coins are gathered: each denomination once, with its amount.
    Done(Vec<Coin>),
}

/// The coins gathered so far.
#[derive(Debug)]
pub struct CoinsInput {
    coins: cosmwasm_std::Coins,
}

impl CoinsInput {
    /// The amount that is gathered of each denomination.
    pub closed spec fn held(&self) -> Map<Seq<char>, u128> {
        coins_held(self.coins)
    }

    /// Nothing gathered yet.
    pub fn new() -> (r: Self)
        ensures
            r.held() == no_coins(),
    {
        CoinsInput { coins: coins_default() }
    }

    /// The coins gathered so far: each denomination once, with its amount.
    pub fn to_vec(&self) -> (r: Vec<Coin>)
        ensures
            lists_coins(r@, self.held()),
    {
        coins_to_vec(&self.coins)
    }

}

/// Takes the next entry: a coin is added to what is gathered and another one
/// is asked for; no coin ends the gathering. Amounts that add up to more than
/// can be held fail, and what was gathered stays as it was.
pub fn parse_coins(input: &mut CoinsInput, entry: Option<Coin>) -> (r: Result<
    CoinsAction,
    CoinsError,
>)
    ensures
        final(input).held() == gathered(old(input).held(), entry),
        match entry {
            None => r is Ok && r->Ok_0 is Done && lists_coins(
                r->Ok_0->Done_0@,
                old(input).held(),
            ),
            Some(coin) => match coins_added(old(input).held(), coin.denom@, coin.amount) {
                Some(_) => r == Ok::<CoinsAction, CoinsError>(CoinsAction::Ask),
                None => r == Err::<CoinsAction, CoinsError>(CoinsError::Overflow),
            },
        },
{
    match entry {
        None => Ok(CoinsAction::Done(input.to_vec())),
        Some(coin) => match coins_add(&mut input.coins, coin.denom, coin.amount) {
            Ok(_) => Ok(CoinsAction::Ask),
            Err(_) => Err(CoinsError::Overflow),
        },
    }
}

} // verus!
