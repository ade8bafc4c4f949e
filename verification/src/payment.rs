//! How much a payment forwards, and the transfer that carries it.

use vstd::prelude::*;
use crate::address::HumanAddr;
use crate::coin::{coins_view, expected_denom, Coin, CoinView};
use crate::error::ContractError;
use crate::msg::{HandleResponse, Transfer, TransferView};

verus! {

/// How the amount to forward is found. A deployment uses one policy throughout.
#[derive(Clone, Copy, Debug, PartialEq, Eq, Structural)]
pub enum PaymentPolicy {
    /// The caller names the coins to forward.
    ForwardSpecified,
    /// Nine tenths of the first attached coin are forwarded.
    SkimFraction,
}

/// Funds are fit for a payment when there are some and the first coin is of
/// the accepted currency.
pub open spec fn funds_acceptable(funds: Seq<CoinView>) -> bool {
    funds.len() > 0 && funds[0].denom == expected_denom()
}

/// Nine times the whole tenths of `amount`.
pub open spec fn skim(amount: nat) -> nat {
    (amount / 10) * 9
}

/// The coins a payment forwards, given acceptable funds.
pub open spec fn forwarded(policy: PaymentPolicy, funds: Seq<CoinView>, pay: Seq<CoinView>) -> Seq<
    CoinView,
> {
    match policy {
        PaymentPolicy::ForwardSpecified => pay,
        PaymentPolicy::SkimFraction => seq![
            CoinView { denom: funds[0].denom, amount: skim(funds[0].amount) },
        ],
    }
}

/// The coins a payment forwards, or the refusal of its funds.
pub open spec fn payment_result(
    policy: PaymentPolicy,
    funds: Seq<CoinView>,
    pay: Seq<CoinView>,
) -> Result<Seq<CoinView>, ContractError> {
    if funds_acceptable(funds) {
        Ok(forwarded(policy, funds, pay))
    } else {
        Err(ContractError::InvalidFunds)
    }
}

/// A result with the coins in it taken by their views.
pub open spec fn coins_result_view(r: Result<Vec<Coin>, ContractError>) -> Result<
    Seq<CoinView>,
    ContractError,
> {
    match r {
        Ok(coins) => Ok(coins_view(coins@)),
        Err(e) => Err(e),
    }
}

/// The one transfer of a payment.
pub open spec fn transfer_of(from: Seq<char>, to: Seq<char>, amount: Seq<CoinView>) -> Seq<
    TransferView,
> {
    seq![TransferView { from_address: from, to_address: to, amount }]
}

/// Refuses funds that are missing or of another currency.
pub fn check_funds(funds: &Vec<Coin>) -> (r: Result<(), ContractError>)
    ensures
        r is Ok <==> funds_acceptable(coins_view(funds@)),
        r is Err ==> r == Err::<(), ContractError>(ContractError::InvalidFunds),
{
    if funds.len() == 0 {
        return Err(ContractError::InvalidFunds);
    }
    if funds[0].is_expected_denom() {
        Ok(())
    } else {
        Err(ContractError::InvalidFunds)
    }
}

/// Nine tenths of `amount`, the tenth taken first and rounded down.
pub fn skim_amount(amount: u128) -> (kept: u128)
    ensures
        kept == skim(amount as nat),
        kept <= amount,
{
    let tenth: u128 = amount / 10;
    tenth * 9
}

/// Finds the coins to forward under `policy` for a call that came with `funds`.
pub fn compute_payment(policy: PaymentPolicy, funds: &Vec<Coin>, pay: Vec<Coin>) -> (r: Result<
    Vec<Coin>,
    ContractError,
>)
    ensures
        coins_result_view(r) == payment_result(policy, coins_view(funds@), coins_view(pay@)),
{
    match check_funds(funds) {
        Err(e) => Err(e),
        Ok(_) => {
            match policy {
                PaymentPolicy::ForwardSpecified => Ok(pay),
                PaymentPolicy::SkimFraction => {
                    let first = &funds[0];
                    let mut amount: Vec<Coin> = Vec::new();
                    amount.push(
                        Coin { denom: first.denom.clone(), amount: skim_amount(first.amount) },
                    );
                    assert(coins_view(amount@) =~= forwarded(
                        policy,
                        coins_view(funds@),
                        coins_view(pay@),
                    ));
                    Ok(amount)
                },
            }
        },
    }
}

/// Wraps the coins into the single transfer from the contract to the receiver.
pub fn dispatch(from: HumanAddr, to: HumanAddr, amount: Vec<Coin>) -> (response: HandleResponse)
    ensures
        response@ == transfer_of(from@, to@, coins_view(amount@)),
{
    let mut messages: Vec<Transfer> = Vec::new();
    messages.push(Transfer { from_address: from, to_address: to, amount });
    let response = HandleResponse { messages };
    assert(response@ =~= transfer_of(from@, to@, coins_view(amount@)));
    response
}

} // verus!
