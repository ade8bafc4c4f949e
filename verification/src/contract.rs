//! The contract's entry points: set up, handle a request, answer a query.

use vstd::prelude::*;
use crate::address::{CanonicalAddr, HumanAddr};
use crate::coin::{coins_view, Coin, CoinView};
use crate::error::ContractError;
use crate::msg::{
    AddressResponse, Env, EnvView, HandleMsg, HandleMsgView, HandleResponse, InitMsg,
    InitResponse, QueryMsg, TransferView,
};
use crate::payment::{
    compute_payment, dispatch, payment_result, transfer_of, PaymentPolicy,
};
use crate::state::{load_result, save_result, ConfigStore, State, StateView, StorageView};

verus! {

/// What a call leaves behind: the store and the answer to the host.
pub struct Outcome {
    pub store: StorageView,
    pub result: Result<Seq<TransferView>, ContractError>,
}

/// The store after an attempt to write `state`, with nothing for the host to
/// do if the write went through.
pub open spec fn persist_outcome(store: StorageView, state: StateView) -> Outcome {
    Outcome {
        store: save_result(store, state).0,
        result: match save_result(store, state).1 {
            Ok(_) => Ok(Seq::empty()),
            Err(e) => Err(e),
        },
    }
}

/// The caller is the owner on record.
pub open spec fn authorized(caller: Seq<u8>, state: StateView) -> bool {
    caller == state.owner
}

/// What initialization by `sender` does: the record is written with `sender`
/// as its owner, whatever the store held.
pub open spec fn init_outcome(
    store: StorageView,
    sender: Seq<u8>,
    receive_addr: Seq<char>,
) -> Outcome {
    persist_outcome(store, StateView { receive_addr, owner: sender })
}

/// What a request to redirect payments to `address` does when `sender` makes
/// it: the record is read, the sender is held to be the owner, and the record
/// is written with the new address.
pub open spec fn reset_addr_outcome(
    store: StorageView,
    sender: Seq<u8>,
    address: Seq<char>,
) -> Outcome {
    match load_result(store.slot) {
        Err(e) => Outcome { store, result: Err(e) },
        Ok(state) => if authorized(sender, state) {
            persist_outcome(store, StateView { receive_addr: address, owner: state.owner })
        } else {
            Outcome { store, result: Err(ContractError::Unauthorized) }
        },
    }
}

/// What a payment request answers. The funds are judged before the store is read.
pub open spec fn send_payment_result(
    store: StorageView,
    env: EnvView,
    pay: Seq<CoinView>,
    policy: PaymentPolicy,
) -> Result<Seq<TransferView>, ContractError> {
    match payment_result(policy, env.sent_funds, pay) {
        Err(e) => Err(e),
        Ok(amount) => match load_result(store.slot) {
            Err(e) => Err(e),
            Ok(state) => Ok(transfer_of(env.contract_address, state.receive_addr, amount)),
        },
    }
}

/// What a handle request does.
pub open spec fn handle_outcome(
    store: StorageView,
    env: EnvView,
    msg: HandleMsgView,
    policy: PaymentPolicy,
) -> Outcome {
    match msg {
        HandleMsgView::SendPayment { pay } => Outcome {
            store,
            result: send_payment_result(store, env, pay, policy),
        },
        HandleMsgView::ResetAddr { address } => reset_addr_outcome(store, env.sender, address),
    }
}

/// What a query answers: the receiving address on record.
pub open spec fn query_result(store: StorageView, msg: QueryMsg) -> Result<
    Seq<char>,
    ContractError,
> {
    match load_result(store.slot) {
        Err(e) => Err(e),
        Ok(state) => Ok(state.receive_addr),
    }
}

/// An init result with the response in it taken by its view.
pub open spec fn init_result_view(r: Result<InitResponse, ContractError>) -> Result<
    Seq<TransferView>,
    ContractError,
> {
    match r {
        Ok(response) => Ok(response@),
        Err(e) => Err(e),
    }
}

/// A handle result with the response in it taken by its view.
pub open spec fn handle_result_view(r: Result<HandleResponse, ContractError>) -> Result<
    Seq<TransferView>,
    ContractError,
> {
    match r {
        Ok(response) => Ok(response@),
        Err(e) => Err(e),
    }
}

/// A query result with the address in it taken by its view.
pub open spec fn address_result_view(r: Result<AddressResponse, ContractError>) -> Result<
    Seq<char>,
    ContractError,
> {
    match r {
        Ok(response) => Ok(response.address@),
        Err(e) => Err(e),
    }
}

/// Sets the contract up: the sender becomes the owner and payments go to the
/// address in `msg`. Fails only where the store refuses the write, and asks
/// nothing of the host.
pub fn init(store: &mut ConfigStore, env: Env, msg: InitMsg) -> (r: Result<
    InitResponse,
    ContractError,
>)
    ensures
        (Outcome { store: final(store)@, result: init_result_view(r) }) == init_outcome(
            old(store)@,
            env.sender@,
            msg.receive_addr@,
        ),
{
    let state = State { receive_addr: msg.receive_addr, owner: env.sender };
    match store.save(state) {
        Ok(_) => Ok(InitResponse::empty()),
        Err(e) => Err(e),
    }
}

/// Lets the owner through and nobody else.
pub fn authorize(caller: &CanonicalAddr, state: &State) -> (r: Result<(), ContractError>)
    ensures
        r is Ok <==> authorized(caller@, state@),
        r is Err ==> r == Err::<(), ContractError>(ContractError::Unauthorized),
{
    if caller.same_as(&state.owner) {
        Ok(())
    } else {
        Err(ContractError::Unauthorized)
    }
}

/// Routes a request to the payment path or to the owner-only change of the
/// receiving address.
pub fn handle(store: &mut ConfigStore, env: Env, msg: HandleMsg, policy: PaymentPolicy) -> (r:
    Result<HandleResponse, ContractError>)
    ensures
        (Outcome { store: final(store)@, result: handle_result_view(r) }) == handle_outcome(
            old(store)@,
            env@,
            msg@,
            policy,
        ),
{
    match msg {
        HandleMsg::SendPayment { pay } => send_payment(store, env, pay, policy),
        HandleMsg::ResetAddr { address } => reset_addr(store, env, address),
    }
}

/// Forwards the attached funds to the receiving address on record, as one
/// transfer from the contract's own address. Anyone may ask for this.
pub fn send_payment(store: &ConfigStore, env: Env, pay: Vec<Coin>, policy: PaymentPolicy) -> (r:
    Result<HandleResponse, ContractError>)
    ensures
        handle_result_view(r) == send_payment_result(store@, env@, coins_view(pay@), policy),
{
    let amount = match compute_payment(policy, &env.sent_funds, pay) {
        Ok(amount) => amount,
        Err(e) => {
            return Err(e);
        },
    };
    let state = match store.load() {
        Ok(state) => state,
        Err(e) => {
            return Err(e);
        },
    };
    Ok(dispatch(env.contract_address, state.receive_addr, amount))
}

/// Redirects payments to `address` if the sender is the owner; otherwise
/// refuses. A request that fails leaves the store as it was.
pub fn reset_addr(store: &mut ConfigStore, env: Env, address: HumanAddr) -> (r: Result<
    HandleResponse,
    ContractError,
>)
    ensures
        (Outcome { store: final(store)@, result: handle_result_view(r) }) == reset_addr_outcome(
            old(store)@,
            env.sender@,
            address@,
        ),
{
    let state = match store.load() {
        Ok(state) => state,
        Err(e) => {
            return Err(e);
        },
    };
    match authorize(&env.sender, &state) {
        Ok(_) => {},
        Err(e) => {
            return Err(e);
        },
    }
    match store.save(State { receive_addr: address, owner: state.owner }) {
        Ok(_) => Ok(HandleResponse::empty()),
        Err(e) => Err(e),
    }
}

/// Answers a query from the store, without any check of who asks.
pub fn query(store: &ConfigStore, msg: QueryMsg) -> (r: Result<AddressResponse, ContractError>)
    ensures
        address_result_view(r) == query_result(store@, msg),
{
    match msg {
        QueryMsg::GetAddr {  } => query_count(store),
    }
}

/// Reads the receiving address on record.
fn query_count(store: &ConfigStore) -> (r: Result<AddressResponse, ContractError>)
    ensures
        address_result_view(r) == query_result(store@, QueryMsg::GetAddr {  }),
{
    match store.load() {
        Ok(state) => Ok(AddressResponse { address: state.receive_addr }),
        Err(e) => Err(e),
    }
}

} // verus!
