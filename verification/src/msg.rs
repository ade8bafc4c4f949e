//! The requests the contract takes and the answers it gives.

use vstd::prelude::*;
use crate::address::{CanonicalAddr, HumanAddr};
use crate::coin::{coins_view, Coin, CoinView};

verus! {

/// What the host tells the contract about one call.
#[derive(Debug, PartialEq, Eq)]
pub struct Env {
    /// Who made the call, in canonical form.
    pub sender: CanonicalAddr,
    /// The coins that came with the call.
    pub sent_funds: Vec<Coin>,
    /// The contract's own address.
    pub contract_address: HumanAddr,
}

/// The call's surroundings as contracts speak of them.
pub struct EnvView {
    pub sender: Seq<u8>,
    pub sent_funds: Seq<CoinView>,
    pub contract_address: Seq<char>,
}

impl View for Env {
    type V = EnvView;

    open spec fn view(&self) -> EnvView {
        EnvView {
            sender: self.sender@,
            sent_funds: coins_view(self.sent_funds@),
            contract_address: self.contract_address@,
        }
    }
}

/// The request that sets the contract up.
#[derive(Debug, PartialEq, Eq)]
pub struct InitMsg {
    pub receive_addr: HumanAddr,
}

/// A request that may change the contract or make it pay.
#[derive(Debug, PartialEq, Eq)]
pub enum HandleMsg {
    /// Forward the attached funds. `pay` is the amount to forward where the
    /// caller names it; where the contract computes the amount, `pay` plays no part.
    SendPayment { pay: Vec<Coin> },
    /// Send payments to `address` from now on.
    ResetAddr { address: HumanAddr },
}

/// A handle request as contracts speak of it.
pub enum HandleMsgView {
    SendPayment { pay: Seq<CoinView> },
    ResetAddr { address: Seq<char> },
}

impl View for HandleMsg {
    type V = HandleMsgView;

    open spec fn view(&self) -> HandleMsgView {
        match *self {
            HandleMsg::SendPayment { pay } => HandleMsgView::SendPayment { pay: coins_view(pay@) },
            HandleMsg::ResetAddr { address } => HandleMsgView::ResetAddr { address: address@ },
        }
    }
}

/// A request that only reads.
#[derive(Clone, Copy, Debug, PartialEq, Eq, Structural)]
pub enum QueryMsg {
    /// Ask where payments are sent.
    GetAddr {  },
}

/// The answer to `GetAddr`.
#[derive(Debug, PartialEq, Eq)]
pub struct AddressResponse {
    pub address: HumanAddr,
}

/// One transfer that the host is to carry out once the call has succeeded.
#[derive(Debug, PartialEq, Eq)]
pub struct Transfer {
    pub from_address: HumanAddr,
    pub to_address: HumanAddr,
    pub amount: Vec<Coin>,
}

/// A transfer as contracts speak of it.
pub struct TransferView {
    pub from_address: Seq<char>,
    pub to_address: Seq<char>,
    pub amount: Seq<CoinView>,
}

impl View for Transfer {
    type V = TransferView;

    open spec fn view(&self) -> TransferView {
        TransferView {
            from_address: self.from_address@,
            to_address: self.to_address@,
            amount: coins_view(self.amount@),
        }
    }
}

/// The transfers of a list, each by its view, in the list's order.
pub open spec fn transfers_view(transfers: Seq<Transfer>) -> Seq<TransferView> {
    Seq::new(transfers.len(), |i: int| transfers[i]@)
}

/// What initialization hands back to the host.
#[derive(Debug, PartialEq, Eq)]
pub struct InitResponse {
    pub messages: Vec<Transfer>,
}

/// What a handled request hands back to the host.
#[derive(Debug, PartialEq, Eq)]
pub struct HandleResponse {
    pub messages: Vec<Transfer>,
}

impl View for InitResponse {
    type V = Seq<TransferView>;

    open spec fn view(&self) -> Seq<TransferView> {
        transfers_view(self.messages@)
    }
}

impl View for HandleResponse {
    type V = Seq<TransferView>;

    open spec fn view(&self) -> Seq<TransferView> {
        transfers_view(self.messages@)
    }
}

impl Clone for Env {
    /// The same surroundings once more.
    fn clone(&self) -> (copy: Env)
        ensures
            copy@ == self@,
    {
        let sent_funds = self.sent_funds.clone();
        assert(coins_view(sent_funds@) =~= coins_view(self.sent_funds@));
        Env {
            sender: self.sender.clone(),
            sent_funds,
            contract_address: self.contract_address.clone(),
        }
    }
}

impl Clone for InitMsg {
    /// The same request once more.
    fn clone(&self) -> (copy: InitMsg)
        ensures
            copy.receive_addr@ == self.receive_addr@,
    {
        InitMsg { receive_addr: self.receive_addr.clone() }
    }
}

impl Clone for HandleMsg {
    /// The same request once more.
    fn clone(&self) -> (copy: HandleMsg)
        ensures
            copy@ == self@,
    {
        match self {
            HandleMsg::SendPayment { pay } => {
                let copied = pay.clone();
                assert(coins_view(copied@) =~= coins_view(pay@));
                HandleMsg::SendPayment { pay: copied }
            },
            HandleMsg::ResetAddr { address } => HandleMsg::ResetAddr { address: address.clone() },
        }
    }
}

impl Clone for AddressResponse {
    /// The same answer once more.
    fn clone(&self) -> (copy: AddressResponse)
        ensures
            copy.address@ == self.address@,
    {
        AddressResponse { address: self.address.clone() }
    }
}

impl Clone for Transfer {
    /// The same transfer once more.
    fn clone(&self) -> (copy: Transfer)
        ensures
            copy@ == self@,
    {
        let amount = self.amount.clone();
        assert(coins_view(amount@) =~= coins_view(self.amount@));
        Transfer {
            from_address: self.from_address.clone(),
            to_address: self.to_address.clone(),
            amount,
        }
    }
}

impl Clone for InitResponse {
    /// The same response once more.
    fn clone(&self) -> (copy: InitResponse)
        ensures
            copy@ == self@,
    {
        let messages = self.messages.clone();
        assert(transfers_view(messages@) =~= transfers_view(self.messages@));
        InitResponse { messages }
    }
}

impl Clone for HandleResponse {
    /// The same response once more.
    fn clone(&self) -> (copy: HandleResponse)
        ensures
            copy@ == self@,
    {
        let messages = self.messages.clone();
        assert(transfers_view(messages@) =~= transfers_view(self.messages@));
        HandleResponse { messages }
    }
}

impl InitResponse {
    /// A response that asks nothing of the host.
    pub fn empty() -> (response: InitResponse)
        ensures
            response@ == Seq::<TransferView>::empty(),
    {
        let response = InitResponse { messages: Vec::new() };
        assert(response@ =~= Seq::<TransferView>::empty());
        response
    }
}

impl HandleResponse {
    /// A response that asks nothing of the host.
    pub fn empty() -> (response: HandleResponse)
        ensures
            response@ == Seq::<TransferView>::empty(),
    {
        let response = HandleResponse { messages: Vec::new() };
        assert(response@ =~= Seq::<TransferView>::empty());
        response
    }
}

} // verus!
