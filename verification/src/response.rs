use vstd::prelude::*;
use crate::msg::Coin;

verus! {

/// A key and a value that describe what a call did.
#[derive(Debug, PartialEq)]
pub struct Attribute {
    pub key: String,
    pub value: String,
}

impl View for Attribute {
    type V = (Seq<char>, Seq<char>);

    open spec fn view(&self) -> (Seq<char>, Seq<char>) {
        (self.key@, self.value@)
    }
}

/// A message to execute on another contract: its address, the encoded
/// message, and the funds sent along.
#[derive(Debug, PartialEq)]
pub struct WasmExecute {
    pub contract_addr: String,
    pub msg: Vec<u8>,
    pub funds: Vec<Coin>,
}

/// A message to another contract as plain values.
pub struct WasmExecuteView {
    pub contract_addr: Seq<char>,
    pub msg: Seq<u8>,
    pub funds: Seq<(Seq<char>, u128)>,
}

impl View for WasmExecute {
    type V = WasmExecuteView;

    open spec fn view(&self) -> WasmExecuteView {
        WasmExecuteView {
            contract_addr: self.contract_addr@,
            msg: self.msg@,
            funds: self.funds@.map_values(|c: Coin| c@),
        }
    }
}

/// A transfer of coins from the contract to an address.
#[derive(Debug, PartialEq)]
pub struct BankSend {
    pub to_address: String,
    pub amount: Vec<Coin>,
}

/// A message that a call asks the chain to dispatch.
#[derive(Debug, PartialEq)]
pub enum CosmosMsg {
    Wasm(WasmExecute),
    Bank(BankSend),
}

/// A dispatched message as plain values.
pub enum CosmosMsgView {
    Wasm(WasmExecuteView),
    Bank { to_address: Seq<char>, amount: Seq<(Seq<char>, u128)> },
}

impl View for CosmosMsg {
    type V = CosmosMsgView;

    open spec fn view(&self) -> CosmosMsgView {
        match self {
            CosmosMsg::Wasm(m) => CosmosMsgView::Wasm(m@),
            CosmosMsg::Bank(b) => CosmosMsgView::Bank {
                to_address: b.to_address@,
                amount: b.amount@.map_values(|c: Coin| c@),
            },
        }
    }
}

/// What a call answers: the messages to dispatch and the attributes.
#[derive(Debug, PartialEq)]
pub struct Response {
    pub messages: Vec<CosmosMsg>,
    pub attributes: Vec<Attribute>,
}

/// A response as plain values.
pub struct ResponseView {
    pub messages: Seq<CosmosMsgView>,
    pub attributes: Seq<(Seq<char>, Seq<char>)>,
}

impl View for Response {
    type V = ResponseView;

    open spec fn view(&self) -> ResponseView {
        ResponseView {
            messages: self.messages@.map_values(|m: CosmosMsg| m@),
            attributes: self.attributes@.map_values(|a: Attribute| a@),
        }
    }
}

/// A response with one attribute and no messages.
pub open spec fn one_attribute(key: Seq<char>, value: Seq<char>) -> ResponseView {
    ResponseView { messages: Seq::empty(), attributes: seq![(key, value)] }
}

/// A response with neither messages nor attributes.
pub open spec fn empty_response() -> ResponseView {
    ResponseView { messages: Seq::empty(), attributes: Seq::empty() }
}

/// A response with no messages.
pub fn new_response() -> (r: Response)
    ensures
        r@ == empty_response(),
{
    let r = Response { messages: Vec::new(), attributes: Vec::new() };
    assert(r@.messages =~= Seq::<CosmosMsgView>::empty());
    assert(r@.attributes =~= Seq::<(Seq<char>, Seq<char>)>::empty());
    r
}

impl Response {
    /// Adds an attribute at the end.
    pub fn add_attribute(self, key: String, value: String) -> (r: Response)
        ensures
            r@.messages == self@.messages,
            r@.attributes == self@.attributes.push((key@, value@)),
    {
        let mut r = self;
        r.attributes.push(Attribute { key, value });
        assert(r@.attributes =~= self@.attributes.push((key@, value@)));
        r
    }
}

} // verus!
