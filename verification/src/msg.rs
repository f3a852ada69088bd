use vstd::prelude::*;

use crate::state::Config;

verus! {

/// Bootstrap parameters. A missing owner defaults to the instantiating
/// caller; missing fee components default to zero.
#[derive(Debug)]
pub struct InstantiateMsg {
    pub owner: Option<String>,
    pub flat_fee: Option<u128>,
    pub percent_fee: Option<u128>,
}

/// The two state-mutating entry points.
#[derive(Debug)]
pub enum ExecuteMsg {
    SendCoins { dest_addr1: String, dest_addr2: String },
    WithdrawCoins { quantity: u128 },
}

/// The read-only queries.
#[derive(Debug)]
pub enum QueryMsg {
    GetOwner {},
    Config {},
    GetWithdrawableCoinQuantity { address: String },
}

/// Answer to [`QueryMsg::GetOwner`].
#[derive(Debug)]
pub struct GetOwnerResponse {
    pub owner: String,
}

/// Answer to [`QueryMsg::GetWithdrawableCoinQuantity`].
#[derive(Debug)]
pub struct GetWithdrawableCoinQuantityResponse {
    pub address: String,
    pub balance: u128,
}

/// The typed answer to a query; the host-facing layer serializes it.
#[derive(Debug)]
pub enum QueryAnswer {
    Owner(GetOwnerResponse),
    Config(Config),
    Balance(GetWithdrawableCoinQuantityResponse),
}

/// An amount of coins of one denomination.
#[derive(Debug)]
pub struct Coin {
    pub denom: String,
    pub amount: u128,
}

/// What the host hands an entry point about the current invocation: the
/// authenticated caller and the coins attached to the call.
#[derive(Debug)]
pub struct MessageInfo {
    pub sender: String,
    pub funds: Vec<Coin>,
}

/// An instruction for the host to release coins from contract custody to an
/// account, executed as part of this transaction's effects.
#[derive(Debug)]
pub enum BankMsg {
    Send { to_address: String, amount: Vec<Coin> },
}

/// A key-value annotation attached to an operation's result.
#[derive(Debug)]
pub struct Attribute {
    pub key: String,
    pub value: String,
}

/// What a successful operation hands back to the host: external instructions
/// to execute and annotations to record.
#[derive(Debug)]
pub struct Response {
    pub messages: Vec<BankMsg>,
    pub attributes: Vec<Attribute>,
}

impl Response {
    pub fn new() -> (r: Response)
        ensures
            r.messages@ == Seq::<BankMsg>::empty(),
            r.attributes@ == Seq::<Attribute>::empty(),
    {
        Response { messages: Vec::new(), attributes: Vec::new() }
    }

    pub fn add_message(self, msg: BankMsg) -> (r: Response)
        ensures
            r.messages@ == self.messages@.push(msg),
            r.attributes@ == self.attributes@,
    {
        let mut messages = self.messages;
        messages.push(msg);
        Response { messages, attributes: self.attributes }
    }

    pub fn add_attribute(self, key: String, value: String) -> (r: Response)
        ensures
            r.messages@ == self.messages@,
            r.attributes@ == self.attributes@.push((Attribute { key, value })),
    {
        let mut attributes = self.attributes;
        attributes.push(Attribute { key, value });
        Response { messages: self.messages, attributes }
    }
}

impl Default for Response {
    fn default() -> (r: Response)
        ensures
            r.messages@ == Seq::<BankMsg>::empty(),
            r.attributes@ == Seq::<Attribute>::empty(),
    {
        Response::new()
    }
}

} // verus!
