//! What an account lookup returns.
use vstd::prelude::*;

use crate::primitives::{B256, U256, keccak_empty_bytes};

verus! {

/// The state of one account at one height: balance, nonce, code hash and,
/// where the node sent it, the code itself.
#[derive(Debug, PartialEq, Eq)]
pub struct AccountRecord {
    pub balance: U256,
    pub nonce: u64,
    pub code_hash: B256,
    pub code: Option<Vec<u8>>,
}

/// The contents of an account record, with the code as a sequence of bytes.
pub struct AccountView {
    pub balance: U256,
    pub nonce: u64,
    pub code_hash: B256,
    pub code: Option<Seq<u8>>,
}

impl View for AccountRecord {
    type V = AccountView;

    open spec fn view(&self) -> AccountView {
        AccountView {
            balance: self.balance,
            nonce: self.nonce,
            code_hash: self.code_hash,
            code: match self.code {
                Some(c) => Some(c@),
                None => None,
            },
        }
    }
}

impl AccountView {
    /// The record of an account that does not exist on chain: zero balance,
    /// zero nonce, the hash of empty code and no code.
    pub open spec fn is_absent_default(self) -> bool {
        &&& self.balance.value() == 0
        &&& self.nonce == 0
        &&& self.code_hash@ == keccak_empty_bytes()
        &&& self.code == None::<Seq<u8>>
    }
}

impl AccountRecord {
    /// The record that stands for an account that does not exist on chain.
    pub fn absent() -> (r: AccountRecord)
        ensures
            r@.is_absent_default(),
    {
        AccountRecord { balance: U256::zero(), nonce: 0, code_hash: B256::keccak_empty(), code: None }
    }
}

impl Clone for AccountRecord {
    fn clone(&self) -> (r: AccountRecord)
        ensures
            r@ == self@,
    {
        let code = match &self.code {
            Some(c) => {
                let d = c.clone();
                assert(d@ =~= c@);
                Some(d)
            },
            None => None,
        };
        AccountRecord { balance: self.balance, nonce: self.nonce, code_hash: self.code_hash, code }
    }
}

} // verus!
