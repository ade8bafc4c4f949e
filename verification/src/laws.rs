//! What holds of the contract over every store, caller and request.

use vstd::prelude::*;
use crate::coin::{expected_denom, CoinView};
use crate::contract::{
    handle_outcome, init_outcome, query_result, send_payment_result, Outcome,
};
use crate::error::ContractError;
use crate::msg::{EnvView, HandleMsgView, QueryMsg, TransferView};
use crate::payment::{forwarded, funds_acceptable, skim, transfer_of, PaymentPolicy};
use crate::state::{load_result, StorageView};

verus! {

/// After initialization by `caller` with the address `addr`, on a store that
/// takes the write, a query answers `addr` and the owner on record is `caller`.
/// Nothing is emitted.
pub proof fn init_then_query(store: StorageView, caller: Seq<u8>, addr: Seq<char>)
    requires
        store.writable,
    ensures
        init_outcome(store, caller, addr).result == Ok::<Seq<TransferView>, ContractError>(
            Seq::empty(),
        ),
        query_result(init_outcome(store, caller, addr).store, QueryMsg::GetAddr {  }) == Ok::<
            Seq<char>,
            ContractError,
        >(addr),
        load_result(init_outcome(store, caller, addr).store.slot) is Ok,
        load_result(init_outcome(store, caller, addr).store.slot)->Ok_0.owner == caller,
{
}

/// On a store that refuses the write, initialization fails as a storage
/// failure and leaves the store as it was. It fails in no other way.
pub proof fn init_fails_only_on_a_refused_write(
    store: StorageView,
    caller: Seq<u8>,
    addr: Seq<char>,
)
    ensures
        init_outcome(store, caller, addr).result is Err <==> !store.writable,
        !store.writable ==> init_outcome(store, caller, addr) == (Outcome {
            store,
            result: Err(ContractError::StorageFailure),
        }),
{
}

/// Once `owner` has initialized the contract with the address `first`, a
/// request by anyone else to redirect payments is refused as unauthorized and a
/// query still answers `first`; the same request by `owner` succeeds, emits
/// nothing, and a query answers the new address from then on.
pub proof fn reset_addr_is_owner_gated(
    store: StorageView,
    owner: Seq<u8>,
    other: Seq<u8>,
    first: Seq<char>,
    next: Seq<char>,
    env: EnvView,
    policy: PaymentPolicy,
)
    requires
        store.writable,
        other != owner,
    ensures
        ({
            let configured = init_outcome(store, owner, first).store;
            let request = HandleMsgView::ResetAddr { address: next };
            let refused = handle_outcome(
                configured,
                EnvView { sender: other, ..env },
                request,
                policy,
            );
            let granted = handle_outcome(
                configured,
                EnvView { sender: owner, ..env },
                request,
                policy,
            );
            &&& refused.result == Err::<Seq<TransferView>, ContractError>(
                ContractError::Unauthorized,
            )
            &&& refused.store == configured
            &&& query_result(refused.store, QueryMsg::GetAddr {  }) == Ok::<
                Seq<char>,
                ContractError,
            >(first)
            &&& granted.result == Ok::<Seq<TransferView>, ContractError>(Seq::empty())
            &&& query_result(granted.store, QueryMsg::GetAddr {  }) == Ok::<
                Seq<char>,
                ContractError,
            >(next)
        }),
{
}

/// A payment with no funds attached, or whose first coin is of another
/// currency, fails with `InvalidFunds` under either policy, whatever the store
/// holds, and leaves the store as it was.
pub proof fn payment_needs_valid_funds(
    store: StorageView,
    env: EnvView,
    pay: Seq<CoinView>,
    policy: PaymentPolicy,
)
    requires
        env.sent_funds.len() == 0 || env.sent_funds[0].denom != expected_denom(),
    ensures
        send_payment_result(store, env, pay, policy) == Err::<Seq<TransferView>, ContractError>(
            ContractError::InvalidFunds,
        ),
        handle_outcome(store, env, HandleMsgView::SendPayment { pay }, policy) == (Outcome {
            store,
            result: Err(ContractError::InvalidFunds),
        }),
{
}

/// Where the caller names the coins, a payment with acceptable funds forwards
/// exactly those coins to the address on record, whatever amount was attached.
pub proof fn specified_payment_is_forwarded_as_given(
    store: StorageView,
    env: EnvView,
    pay: Seq<CoinView>,
)
    requires
        store.slot is Holding,
        funds_acceptable(env.sent_funds),
    ensures
        send_payment_result(store, env, pay, PaymentPolicy::ForwardSpecified) == Ok::<
            Seq<TransferView>,
            ContractError,
        >(transfer_of(env.contract_address, store.slot->Holding_0.receive_addr, pay)),
{
}

/// Where the contract computes the amount, a payment with acceptable funds
/// forwards one coin of the first attached coin's currency: nine times the
/// whole tenths of its amount. What the caller named plays no part.
pub proof fn skimmed_payment_is_nine_tenths(store: StorageView, env: EnvView, pay: Seq<CoinView>)
    requires
        store.slot is Holding,
        funds_acceptable(env.sent_funds),
    ensures
        send_payment_result(store, env, pay, PaymentPolicy::SkimFraction) == Ok::<
            Seq<TransferView>,
            ContractError,
        >(
            transfer_of(
                env.contract_address,
                store.slot->Holding_0.receive_addr,
                seq![
                    CoinView {
                        denom: expected_denom(),
                        amount: (env.sent_funds[0].amount / 10) * 9,
                    },
                ],
            ),
        ),
{
}

/// A payment is open to every caller: who sends it plays no part in what it
/// answers.
pub proof fn payment_is_open_to_every_caller(
    store: StorageView,
    env: EnvView,
    caller: Seq<u8>,
    pay: Seq<CoinView>,
    policy: PaymentPolicy,
)
    ensures
        send_payment_result(store, EnvView { sender: caller, ..env }, pay, policy)
            == send_payment_result(store, env, pay, policy),
{
}

/// The skimmed amount never exceeds the attached amount, falls short of nine
/// tenths of it by less than nine units, and is a multiple of nine.
pub proof fn skim_bounds(amount: nat)
    ensures
        skim(amount) <= amount,
        10 * skim(amount) <= 9 * amount < 10 * skim(amount) + 90,
        skim(amount) % 9 == 0,
{
    let tenth = amount / 10;
    assert(amount == 10 * tenth + amount % 10);
    assert((tenth * 9) % 9 == 0) by (nonlinear_arith);
}

/// A request never changes the owner and never removes the record: a store
/// that holds a record holds one with the same owner afterwards.
pub proof fn owner_is_never_changed(
    store: StorageView,
    env: EnvView,
    msg: HandleMsgView,
    policy: PaymentPolicy,
)
    requires
        store.slot is Holding,
    ensures
        handle_outcome(store, env, msg, policy).store.slot is Holding,
        handle_outcome(store, env, msg, policy).store.slot->Holding_0.owner
            == store.slot->Holding_0.owner,
{
}

/// Only a request by the owner to redirect payments changes the store; every
/// other request, and every request that fails, leaves it as it was.
pub proof fn store_changes_only_by_owner_reset(
    store: StorageView,
    env: EnvView,
    msg: HandleMsgView,
    policy: PaymentPolicy,
)
    ensures
        handle_outcome(store, env, msg, policy).result is Err ==> handle_outcome(
            store,
            env,
            msg,
            policy,
        ).store == store,
        msg is SendPayment ==> handle_outcome(store, env, msg, policy).store == store,
        handle_outcome(store, env, msg, policy).store != store ==> {
            &&& msg is ResetAddr
            &&& store.slot is Holding
            &&& env.sender == store.slot->Holding_0.owner
        },
{
}

/// A request that succeeds emits one transfer if it is a payment and none
/// otherwise; the transfer leaves the contract's own address for the address on
/// record.
pub proof fn success_emits_at_most_one_transfer(
    store: StorageView,
    env: EnvView,
    msg: HandleMsgView,
    policy: PaymentPolicy,
)
    requires
        handle_outcome(store, env, msg, policy).result is Ok,
    ensures
        ({
            let emitted = handle_outcome(store, env, msg, policy).result->Ok_0;
            &&& store.slot is Holding
            &&& msg is ResetAddr ==> emitted.len() == 0
            &&& msg is SendPayment ==> {
                &&& emitted.len() == 1
                &&& emitted[0].from_address == env.contract_address
                &&& emitted[0].to_address == store.slot->Holding_0.receive_addr
                &&& emitted[0].amount == forwarded(policy, env.sent_funds, msg->pay)
            }
        }),
{
}

/// A query reads without any check of who asks: it fails only where the store
/// holds no readable record, as uninitialized or as a storage failure.
pub proof fn query_fails_only_without_record(store: StorageView, msg: QueryMsg)
    ensures
        query_result(store, msg) is Ok <==> store.slot is Holding,
        store.slot is Vacant ==> query_result(store, msg) == Err::<Seq<char>, ContractError>(
            ContractError::Uninitialized,
        ),
        store.slot is Unreadable ==> query_result(store, msg) == Err::<Seq<char>, ContractError>(
            ContractError::StorageFailure,
        ),
{
}

} // verus!
