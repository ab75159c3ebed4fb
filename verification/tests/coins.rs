use cw_orch::balance::{query_balance, total_amount};
use cw_orch::coins::{parse_coins, CoinsAction, CoinsError, CoinsInput};
use cw_orch::instantiate::Coin;
use cw_orch::keys::{seed_phrase_for_id, seed_phrase_from_bytes, SeedError};

fn coin(amount: u128, denom: &str) -> Coin {
    Coin { denom: denom.to_string(), amount }
}

#[test]
fn coins_are_gathered_by_denomination() {
    let mut input = CoinsInput::new();
    assert_eq!(input.to_vec(), vec![]);
    assert_eq!(parse_coins(&mut input, Some(coin(5, "ucosm"))), Ok(CoinsAction::Ask));
    assert_eq!(parse_coins(&mut input, Some(coin(7, "uatom"))), Ok(CoinsAction::Ask));
    assert_eq!(parse_coins(&mut input, Some(coin(3, "ucosm"))), Ok(CoinsAction::Ask));
    assert_eq!(parse_coins(&mut input, Some(coin(0, "ujuno"))), Ok(CoinsAction::Ask));
    assert_eq!(
        parse_coins(&mut input, None),
        Ok(CoinsAction::Done(vec![coin(7, "uatom"), coin(8, "ucosm")]))
    );
}

#[test]
fn coins_that_cannot_be_held_fail_and_change_nothing() {
    let mut input = CoinsInput::new();
    assert_eq!(parse_coins(&mut input, Some(coin(u128::MAX, "ucosm"))), Ok(CoinsAction::Ask));
    assert_eq!(parse_coins(&mut input, Some(coin(1, "ucosm"))), Err(CoinsError::Overflow));
    assert_eq!(input.to_vec(), vec![coin(u128::MAX, "ucosm")]);
    assert_eq!(parse_coins(&mut input, Some(coin(1, "uatom"))), Ok(CoinsAction::Ask));
    assert_eq!(input.to_vec(), vec![coin(1, "uatom"), coin(u128::MAX, "ucosm")]);
}

#[test]
fn no_coin_ends_the_gathering_at_once() {
    let mut input = CoinsInput::new();
    assert_eq!(parse_coins(&mut input, None), Ok(CoinsAction::Done(vec![])));
}

#[test]
fn seed_phrase_is_the_text_behind_the_secret() {
    assert_eq!(
        seed_phrase_for_id("YWJhbmRvbiBhYmlsaXR5IGFibGU="),
        Ok("abandon ability able".to_string())
    );
    assert_eq!(seed_phrase_for_id("not base64!"), Err(SeedError::NotBase64));
    assert_eq!(seed_phrase_for_id("//4="), Err(SeedError::NotText));
    assert_eq!(seed_phrase_for_id(""), Ok(String::new()));
    assert_eq!(seed_phrase_from_bytes(None), Err(SeedError::NotBase64));
    assert_eq!(seed_phrase_from_bytes(Some(b"seed".to_vec())), Ok("seed".to_string()));
}

#[test]
fn add_balance() {
    let amount = 1000000u128;
    let first = cw_orch::balance::add_balance(vec![], vec![coin(amount, "uosmo")]).unwrap();
    assert_eq!(first, vec![coin(amount, "uosmo")]);
    let second = cw_orch::balance::add_balance(first, vec![coin(amount, "osmou")]).unwrap();
    assert!(second.contains(&coin(amount, "uosmo")));
    assert!(second.contains(&coin(amount, "osmou")));
    assert_eq!(second, vec![coin(amount, "osmou"), coin(amount, "uosmo")]);
    let third = cw_orch::balance::add_balance(second, vec![coin(5, "uosmo"), coin(1, "uosmo")]).unwrap();
    assert_eq!(third, vec![coin(amount, "osmou"), coin(amount + 6, "uosmo")]);
    assert_eq!(cw_orch::balance::add_balance(vec![coin(u128::MAX, "a")], vec![coin(1, "b")]), None);
    assert_eq!(cw_orch::balance::add_balance(vec![coin(u128::MAX, "a"), coin(1, "b")], vec![]), None);
    assert_eq!(
        cw_orch::balance::add_balance(vec![coin(u128::MAX - 1, "a")], vec![coin(1, "a")]),
        Some(vec![coin(u128::MAX, "a")])
    );
    assert_eq!(total_amount(&vec![coin(2, "a"), coin(3, "b")]), Some(5));
    assert_eq!(total_amount(&vec![coin(u128::MAX, "a"), coin(3, "b")]), None);
    assert_eq!(query_balance(&vec![coin(45, "urandom"), coin(1, "other")]), 45);
    assert_eq!(query_balance(&vec![]), 0);
}
