//! Bank balances of a simulated chain: what an address holds, and what it
//! holds once more is added.

use crate::instantiate::Coin;
use vstd::prelude::*;

verus! {

/// A coin as denomination and amount.
pub type CoinView = (Seq<char>, u128);

/// The coins of a list as denominations and amounts.
pub open spec fn coin_views(coins: Seq<Coin>) -> Seq<CoinView> {
    coins.map_values(|c: Coin| (c.denom@, c.amount))
}

/// All amounts of a list of coins together, whatever their denomination.
pub open spec fn coin_total(coins: Seq<Coin>) -> nat
    decreases coins.len(),
{
    if coins.len() == 0 {
        0
    } else {
        coin_total(coins.drop_last()) + coins.last().amount as nat
    }
}

/// The balance that holds `added` on top of `current`.
pub uninterp spec fn native_balance_sum(current: Seq<CoinView>, added: Seq<CoinView>) -> Seq<CoinView>;

/// The sum of two `cw_utils::NativeBalance`, as a list of coins. The sum
/// stops the program where the amounts of one denomination leave 128 bits,
/// so only lists whose amounts all fit together are admitted. The contract
/// only names the outcome: the same lists always give the same balance.
#[verifier::external_body]
pub(crate) fn native_balance_add(current: Vec<Coin>, added: Vec<Coin>) -> (r: Vec<Coin>)
    requires
        coin_total(current@) + coin_total(added@) <= u128::MAX,
    ensures
        coin_views(r@) == native_balance_sum(coin_views(current@), coin_views(added@)),
{
    let current = current.into_iter().map(|c| cosmwasm_std::Coin::new(c.amount, c.denom)).collect();
    let added = added.into_iter().map(|c| cosmwasm_std::Coin::new(c.amount, c.denom)).collect();
    let sum = cw_utils::NativeBalance(current) + cw_utils::NativeBalance(added);
    sum.into_vec().into_iter().map(|c| Coin { denom: c.denom, amount: c.amount.u128() }).collect()
}

/// All amounts of `coins` together, where they fit into 128 bits.
pub fn total_amount(coins: &Vec<Coin>) -> (r: Option<u128>)
    ensures
        match r {
            Some(total) => coin_total(coins@) == total,
            None => coin_total(coins@) > u128::MAX,
        },
{
    let mut total: u128 = 0;
    let mut i: usize = 0;
    proof {
        assert(coins@.take(0) =~= Seq::empty());
    }
    while i < coins.len()
        invariant
            i <= coins.len(),
            coin_total(coins@.take(i as int)) == total,
        decreases coins.len() - i,
    {
        proof {
            assert(coins@.take(i + 1).drop_last() =~= coins@.take(i as int));
            assert(coins@.take(i + 1).last() == coins@[i as int]);
        }
        let amount = coins[i].amount;
        if amount > u128::MAX - total {
            proof {
                lemma_total_grows(coins@, i + 1);
            }
            return None;
        }
        total = total + amount;
        i += 1;
    }
    proof {
        assert(coins@.take(i as int) =~= coins@);
    }
    Some(total)
}

/// The total of a list is at least the total of each of its beginnings.
proof fn lemma_total_grows(coins: Seq<Coin>, n: int)
    requires
        0 <= n <= coins.len(),
    ensures
        coin_total(coins.take(n)) <= coin_total(coins),
    decreases coins.len() - n,
{
    if n < coins.len() {
        assert(coins.take(n + 1).drop_last() =~= coins.take(n));
        lemma_total_grows(coins, n + 1);
    } else {
        assert(coins.take(n) =~= coins);
    }
}

/// The balance that holds `amount` on top of `current`; none where the
/// amounts do not all fit together into 128 bits.
pub fn add_balance(current: Vec<Coin>, amount: Vec<Coin>) -> (r: Option<Vec<Coin>>)
    ensures
        match r {
            Some(balance) => coin_total(current@) + coin_total(amount@) <= u128::MAX && coin_views(
                balance@,
            ) == native_balance_sum(coin_views(current@), coin_views(amount@)),
            None => coin_total(current@) + coin_total(amount@) > u128::MAX,
        },
{
    let held = match total_amount(&current) {
        Some(total) => total,
        None => { return None; },
    };
    let more = match total_amount(&amount) {
        Some(total) => total,
        None => { return None; },
    };
    if more > u128::MAX - held {
        return None;
    }
    Some(native_balance_add(current, amount))
}

/// The amount of the balance that a query for one denomination gave: that
/// of its first coin, and nothing where it gave no coin.
pub fn query_balance(balance: &Vec<Coin>) -> (r: u128)
    ensures
        r == (if balance@.len() > 0 {
            balance@[0].amount
        } else {
            0
        }),
{
    if balance.len() > 0 {
        balance[0].amount
    } else {
        0
    }
}

} // verus!
