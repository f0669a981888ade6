//! What the host hands to a call, and what a call hands back.

use vstd::prelude::*;

verus! {

/// An amount of one denomination.
#[derive(Debug, Clone, PartialEq)]
pub struct Coin {
    pub denom: String,
    pub amount: String,
}

/// The block in which the call runs.
#[derive(Debug, Clone, PartialEq)]
pub struct BlockInfo {
    pub height: i64,
    pub time: i64,
}

/// Who made the call, and what they sent along.
#[derive(Debug, Clone, PartialEq)]
pub struct MessageInfo {
    pub signer: String,
    pub sent_funds: Vec<Coin>,
}

/// The contract's own address and the funds it holds.
#[derive(Debug, Clone, PartialEq)]
pub struct ContractInfo {
    pub address: String,
    pub balance: Vec<Coin>,
}

/// The context of one call.
#[derive(Debug, Clone, PartialEq)]
pub struct Params {
    pub block: BlockInfo,
    pub message: MessageInfo,
    pub contract: ContractInfo,
}

/// An instruction to the host.
#[derive(Debug, Clone, PartialEq)]
pub enum CosmosMsg {
    /// Move `amount` from `from_address` to `to_address`.
    Send { from_address: String, to_address: String, amount: Vec<Coin> },
}

/// What a successful call returns.
#[derive(Debug, Clone, PartialEq)]
pub struct Response {
    pub messages: Vec<CosmosMsg>,
    pub log: Option<String>,
    pub data: Option<Vec<u8>>,
}

/// A coin as a value: both texts as sequences of characters.
pub struct CoinView {
    pub denom: Seq<char>,
    pub amount: Seq<char>,
}

/// A block as a value.
pub struct BlockInfoView {
    pub height: int,
    pub time: int,
}

/// A caller as a value.
pub struct MessageInfoView {
    pub signer: Seq<char>,
    pub sent_funds: Seq<CoinView>,
}

/// The contract's address and holdings as a value.
pub struct ContractInfoView {
    pub address: Seq<char>,
    pub balance: Seq<CoinView>,
}

/// The context of a call as a value.
pub struct ParamsView {
    pub block: BlockInfoView,
    pub message: MessageInfoView,
    pub contract: ContractInfoView,
}

/// An instruction as a value.
pub enum CosmosMsgView {
    Send { from_address: Seq<char>, to_address: Seq<char>, amount: Seq<CoinView> },
}

/// A response as a value: the instructions in order, the log line and the
/// data, if any.
pub struct ResponseView {
    pub messages: Seq<CosmosMsgView>,
    pub log: Option<Seq<char>>,
    pub data: Option<Seq<u8>>,
}

impl View for Coin {
    type V = CoinView;

    open spec fn view(&self) -> CoinView {
        CoinView { denom: self.denom@, amount: self.amount@ }
    }
}

/// The coins of `coins`, each by its view.
pub open spec fn coins_view(coins: Seq<Coin>) -> Seq<CoinView> {
    coins.map_values(|c: Coin| c@)
}

impl View for BlockInfo {
    type V = BlockInfoView;

    open spec fn view(&self) -> BlockInfoView {
        BlockInfoView { height: self.height as int, time: self.time as int }
    }
}

impl View for MessageInfo {
    type V = MessageInfoView;

    open spec fn view(&self) -> MessageInfoView {
        MessageInfoView { signer: self.signer@, sent_funds: coins_view(self.sent_funds@) }
    }
}

impl View for ContractInfo {
    type V = ContractInfoView;

    open spec fn view(&self) -> ContractInfoView {
        ContractInfoView { address: self.address@, balance: coins_view(self.balance@) }
    }
}

impl View for Params {
    type V = ParamsView;

    open spec fn view(&self) -> ParamsView {
        ParamsView { block: self.block@, message: self.message@, contract: self.contract@ }
    }
}

impl View for CosmosMsg {
    type V = CosmosMsgView;

    open spec fn view(&self) -> CosmosMsgView {
        match self {
            CosmosMsg::Send { from_address, to_address, amount } => CosmosMsgView::Send {
                from_address: from_address@,
                to_address: to_address@,
                amount: coins_view(amount@),
            },
        }
    }
}

impl View for Response {
    type V = ResponseView;

    open spec fn view(&self) -> ResponseView {
        ResponseView {
            messages: self.messages@.map_values(|m: CosmosMsg| m@),
            log: match self.log {
                Some(text) => Some(text@),
                None => None,
            },
            data: match self.data {
                Some(bytes) => Some(bytes@),
                None => None,
            },
        }
    }
}

impl ResponseView {
    /// The response that says and asks nothing.
    pub open spec fn empty() -> ResponseView {
        ResponseView { messages: Seq::empty(), log: None, data: None }
    }
}

impl Default for Response {
    fn default() -> (res: Response)
        ensures
            res@ == ResponseView::empty(),
    {
        let res = Response { messages: Vec::new(), log: None, data: None };
        assert(res@.messages =~= Seq::empty());
        res
    }
}

/// A call's outcome, the response by its view.
pub open spec fn outcome_view<E>(res: Result<Response, E>) -> Result<ResponseView, E> {
    match res {
        Ok(response) => Ok(response@),
        Err(e) => Err(e),
    }
}

} // verus!
