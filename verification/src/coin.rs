//! Coins, and the one currency the contract accepts.

use vstd::prelude::*;

verus! {

/// The currency in which payments must be made.
pub const EXPECTED_DENOM: &'static str = "uusd";

/// An amount of one currency.
#[derive(Debug, PartialEq, Eq)]
pub struct Coin {
    pub denom: String,
    pub amount: u128,
}

/// A coin as contracts speak of it.
pub struct CoinView {
    pub denom: Seq<char>,
    pub amount: nat,
}

impl View for Coin {
    type V = CoinView;

    open spec fn view(&self) -> CoinView {
        CoinView { denom: self.denom@, amount: self.amount as nat }
    }
}

/// The coins of a list, each by its view, in the list's order.
pub open spec fn coins_view(coins: Seq<Coin>) -> Seq<CoinView> {
    Seq::new(coins.len(), |i: int| coins[i]@)
}

/// The characters of the accepted currency code.
pub open spec fn expected_denom() -> Seq<char> {
    seq!['u', 'u', 's', 'd']
}

/// The constant spells the accepted currency code.
pub proof fn expected_denom_is_spelled()
    ensures
        EXPECTED_DENOM@ == expected_denom(),
{
    reveal_strlit("uusd");
    assert(EXPECTED_DENOM@ =~= expected_denom());
}

impl Clone for Coin {
    /// A second coin of the same currency and amount.
    fn clone(&self) -> (copy: Coin)
        ensures
            copy@ == self@,
    {
        Coin { denom: self.denom.clone(), amount: self.amount }
    }
}

impl Coin {
    /// A coin of `amount` units of the currency `denom`.
    pub fn new(amount: u128, denom: &str) -> (coin: Coin)
        ensures
            coin@ == (CoinView { denom: denom@, amount: amount as nat }),
    {
        Coin { denom: denom.to_owned(), amount }
    }

    /// Whether the coin is of the accepted currency.
    pub fn is_expected_denom(&self) -> (accepted: bool)
        ensures
            accepted == (self@.denom == expected_denom()),
    {
        proof {
            expected_denom_is_spelled();
        }
        let expected = EXPECTED_DENOM.to_owned();
        self.denom == expected
    }
}

} // verus!
