//! The record of one escrow, and the store that holds it.

use crate::expiry::{expired, is_expired};
use crate::hash::hex_32;
use crate::types::{BlockInfoView, Params};
use vstd::prelude::*;

verus! {

/// The terms of an escrow, fixed when it is created.
#[derive(Debug, PartialEq)]
pub struct State {
    /// The SHA-256 digest of the preimage: 32 bytes in hex, 64 characters.
    pub hash: String,
    /// Who receives the funds against the preimage.
    pub recipient: String,
    /// Who funded the escrow, and is paid back once it has expired.
    pub source: String,
    /// The block height at which the escrow expires; zero for none.
    pub end_height: i64,
    /// The block time at which the escrow expires; zero for none.
    pub end_time: i64,
}

/// An escrow's terms as a value.
pub struct StateView {
    pub hash: Seq<char>,
    pub recipient: Seq<char>,
    pub source: Seq<char>,
    pub end_height: int,
    pub end_time: int,
}

impl View for State {
    type V = StateView;

    open spec fn view(&self) -> StateView {
        StateView {
            hash: self.hash@,
            recipient: self.recipient@,
            source: self.source@,
            end_height: self.end_height as int,
            end_time: self.end_time as int,
        }
    }
}

impl StateView {
    /// Whether the escrow is expired in `block`.
    pub open spec fn is_expired(self, block: BlockInfoView) -> bool {
        expired(self.end_height, self.end_time, block.height, block.time)
    }

    /// Whether the commitment is a 32-byte value in hex.
    pub open spec fn well_formed(self) -> bool {
        hex_32(self.hash) is Ok
    }
}

impl Clone for State {
    fn clone(&self) -> (res: State)
        ensures
            res == *self,
    {
        State {
            hash: self.hash.clone(),
            recipient: self.recipient.clone(),
            source: self.source.clone(),
            end_height: self.end_height,
            end_time: self.end_time,
        }
    }
}

impl State {
    /// Whether the escrow is expired in the block of `params`.
    pub fn is_expired(&self, params: &Params) -> (res: bool)
        ensures
            res == self@.is_expired(params@.block),
    {
        is_expired(self.end_height, self.end_time, params.block.height, params.block.time)
    }
}

/// Where the one escrow of a contract is kept between calls.
#[derive(Debug)]
pub struct EscrowStore {
    record: Option<State>,
}

impl View for EscrowStore {
    type V = Option<StateView>;

    closed spec fn view(&self) -> Option<StateView> {
        match self.record {
            Some(state) => Some(state@),
            None => None,
        }
    }
}

impl EscrowStore {
    /// A store that holds no escrow.
    pub fn new() -> (store: EscrowStore)
        ensures
            store@ is None,
    {
        EscrowStore { record: None }
    }

    /// The escrow that the store holds, if any.
    pub fn get(&self) -> (res: Option<State>)
        ensures
            (match res {
                Some(state) => self@ == Some(state@),
                None => self@ is None,
            }),
    {
        match &self.record {
            Some(state) => Some(state.clone()),
            None => None,
        }
    }

    /// Puts `state` in the store, in place of what it held.
    pub fn set(&mut self, state: State)
        ensures
            final(self)@ == Some(state@),
    {
        self.record = Some(state);
    }
}

} // verus!
