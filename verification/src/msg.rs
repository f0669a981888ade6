//! The messages the escrow accepts.

use vstd::prelude::*;

verus! {

/// The terms of a new escrow.
#[derive(Debug, Clone, PartialEq)]
pub struct InitMsg {
    /// The SHA-256 digest of the preimage: 32 bytes in hex, 64 characters.
    pub hash: String,
    /// Who receives the funds against the preimage.
    pub recipient: String,
    /// The block height at which the escrow expires; zero for none.
    pub end_height: i64,
    /// The block time at which the escrow expires; zero for none.
    pub end_time: i64,
}

/// A call on an existing escrow.
#[derive(Debug, Clone, PartialEq)]
pub enum HandleMsg {
    /// Pay the recipient. `preimage` is 32 bytes in hex, 64 characters, and
    /// must hash to the commitment.
    Release { preimage: String },
    /// Pay the funder back.
    Refund {},
}

/// The terms of a new escrow as a value.
pub struct InitMsgView {
    pub hash: Seq<char>,
    pub recipient: Seq<char>,
    pub end_height: int,
    pub end_time: int,
}

/// A call on an existing escrow as a value.
pub enum HandleMsgView {
    Release { preimage: Seq<char> },
    Refund,
}

impl View for InitMsg {
    type V = InitMsgView;

    open spec fn view(&self) -> InitMsgView {
        InitMsgView {
            hash: self.hash@,
            recipient: self.recipient@,
            end_height: self.end_height as int,
            end_time: self.end_time as int,
        }
    }
}

impl View for HandleMsg {
    type V = HandleMsgView;

    open spec fn view(&self) -> HandleMsgView {
        match self {
            HandleMsg::Release { preimage } => HandleMsgView::Release { preimage: preimage@ },
            HandleMsg::Refund {  } => HandleMsgView::Refund,
        }
    }
}

} // verus!
