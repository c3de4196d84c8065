//! A read interface pinned at one block height of a remote node.
//!
//! The view decides what to ask the node and what a reply means; whoever owns
//! the connection carries each request to the node and hands the reply back.
use vstd::prelude::*;

use crate::account::{AccountRecord, AccountView};
use crate::error::{StateError, TransportError};
use crate::primitives::{Address, B256, U256};

verus! {

/// A request to the remote node.
#[derive(Clone, Copy, Debug, PartialEq, Eq)]
pub enum RemoteRequest {
    /// The account at `address` as of block `block_number`.
    AccountInfo { address: Address, block_number: U256 },
    /// The storage slot `index` of `address` as of block `block_number`.
    StorageAt { address: Address, index: U256, block_number: U256 },
    /// The header of block `block_number`.
    BlockByNumber { block_number: U256 },
    /// Whether block `block_number` is far enough behind the chain head that
    /// its state can no longer change.
    IsCacheableBlockNumber { block_number: U256 },
}

/// Whether `a` is the account that a reply of the node describes: the record
/// it sent, or the default record where it reported no account.
pub open spec fn is_account_of_reply(reply: Option<AccountRecord>, a: AccountView) -> bool {
    match reply {
        Some(r) => a == r@,
        None => a.is_absent_default(),
    }
}

/// The request for the account at `address` as of block `block_number`.
pub open spec fn account_request_at(block_number: U256, address: Address) -> RemoteRequest {
    RemoteRequest::AccountInfo { address, block_number }
}

/// What a read returns for a reply of the node: its value, or the remote error.
pub open spec fn state_result<T>(reply: Result<T, TransportError>) -> Result<T, StateError> {
    match reply {
        Ok(v) => Ok(v),
        Err(e) => Err(StateError::Remote(e)),
    }
}

/// A view of a remote node's state, pinned at one block height.
pub struct RemoteState {
    block_number: U256,
}

impl View for RemoteState {
    type V = U256;

    /// The pinned block height.
    closed spec fn view(&self) -> U256 {
        self.block_number
    }
}

impl RemoteState {
    /// A view pinned at `block_number`.
    pub fn new(block_number: U256) -> (r: RemoteState)
        ensures
            r@ == block_number,
    {
        RemoteState { block_number }
    }

    /// The pinned block height.
    pub fn block_number(&self) -> (r: &U256)
        ensures
            *r == self@,
    {
        &self.block_number
    }

    /// Pins the view at `block_number` for every later request.
    pub fn set_block_number(&mut self, block_number: &U256)
        ensures
            final(self)@ == *block_number,
    {
        self.block_number = *block_number;
    }

    /// The request that asks whether the pinned height is cacheable.
    pub fn is_cacheable_request(&self) -> (r: RemoteRequest)
        ensures
            r == (RemoteRequest::IsCacheableBlockNumber { block_number: self@ }),
    {
        RemoteRequest::IsCacheableBlockNumber { block_number: self.block_number }
    }

    /// Whether the pinned height is cacheable, from the node's reply to
    /// `is_cacheable_request`.
    pub fn is_cacheable(reply: Result<bool, TransportError>) -> (r: Result<bool, StateError>)
        ensures
            r == state_result(reply),
    {
        match reply {
            Ok(b) => Ok(b),
            Err(e) => Err(StateError::Remote(e)),
        }
    }

    /// The request for the header of block `block_number`, whatever the
    /// pinned height.
    pub fn state_root_request(block_number: U256) -> (r: RemoteRequest)
        ensures
            r == (RemoteRequest::BlockByNumber { block_number }),
    {
        RemoteRequest::BlockByNumber { block_number }
    }

    /// The state root of a block, from the node's reply to
    /// `state_root_request`: the state root of the header it sent.
    pub fn state_root(reply: Result<B256, TransportError>) -> (r: Result<B256, StateError>)
        ensures
            r == state_result(reply),
    {
        match reply {
            Ok(root) => Ok(root),
            Err(e) => Err(StateError::Remote(e)),
        }
    }

    /// The request for the account at `address` at the pinned height.
    pub fn basic_request(&self, address: Address) -> (r: RemoteRequest)
        ensures
            r == account_request_at(self@, address),
    {
        RemoteRequest::AccountInfo { address, block_number: self.block_number }
    }

    /// The account record, from the node's reply to `basic_request`: the
    /// record it sent, the default record where it reported no account, or
    /// the transport error.
    pub fn basic(reply: Result<Option<AccountRecord>, TransportError>) -> (r: Result<
        AccountRecord,
        StateError,
    >)
        ensures
            match reply {
                Ok(a) => r is Ok && is_account_of_reply(a, r->Ok_0@),
                Err(e) => r == Err::<AccountRecord, StateError>(StateError::Remote(e)),
            },
    {
        match reply {
            Ok(Some(a)) => Ok(a),
            Ok(None) => Ok(AccountRecord::absent()),
            Err(e) => Err(StateError::Remote(e)),
        }
    }

    /// The request for storage slot `index` of `address` at the pinned height.
    pub fn storage_request(&self, address: Address, index: U256) -> (r: RemoteRequest)
        ensures
            r == (RemoteRequest::StorageAt { address, index, block_number: self@ }),
    {
        RemoteRequest::StorageAt { address, index, block_number: self.block_number }
    }

    /// The value of a storage slot, from the node's reply to
    /// `storage_request`: the value it sent, zero where it reported the slot
    /// unset, or the transport error.
    pub fn storage(reply: Result<Option<U256>, TransportError>) -> (r: Result<U256, StateError>)
        ensures
            match reply {
                Ok(Some(v)) => r == Ok::<U256, StateError>(v),
                Ok(None) => r is Ok && r->Ok_0.value() == 0,
                Err(e) => r == Err::<U256, StateError>(StateError::Remote(e)),
            },
    {
        match reply {
            Ok(Some(v)) => Ok(v),
            Ok(None) => Ok(U256::zero()),
            Err(e) => Err(StateError::Remote(e)),
        }
    }

    /// Code looked up by its hash alone: never served, since the node hands
    /// out code only with the account that holds it. No request is made.
    pub fn code_by_hash(&self, code_hash: B256) -> (r: Result<Vec<u8>, StateError>)
        ensures
            r == Err::<Vec<u8>, StateError>(StateError::InvalidCodeHash(code_hash)),
    {
        Err(StateError::InvalidCodeHash(code_hash))
    }
}

/// A view pinned anew asks for the new height: once `set_block_number(h2)`
/// has pinned a view at `h2`, its account requests name `h2`, and none of them
/// is the request it made while pinned at another height `h1`, so no reply
/// meant for `h1` answers it.
pub proof fn lemma_repinned_view_asks_new_height(h1: U256, h2: U256, address: Address)
    requires
        h1 != h2,
    ensures
        account_request_at(h2, address)->AccountInfo_block_number == h2,
        account_request_at(h2, address) != account_request_at(h1, address),
{
}

} // verus!
