//! A memoizing cache over a pinned remote view.
//!
//! A read through the cache goes in up to three steps. The first answers from
//! the cache or names a request for the node; the second takes the node's
//! reply and names the request that asks whether the pinned height is
//! cacheable; the third takes that answer and keeps the value only where the
//! height is cacheable. Whoever owns the connection carries each request.
use vstd::prelude::*;

use crate::account::{AccountRecord, AccountView};
use crate::error::{StateError, TransportError};
use crate::primitives::{Address, B256, U256};
use crate::remote::{RemoteRequest, RemoteState, account_request_at, is_account_of_reply};

verus! {

broadcast use vstd::array::group_array_axioms;

/// Where a read through the cache stands.
pub enum Read<T> {
    /// Carry the request to the node and hand its reply to the second step.
    Fetch(RemoteRequest),
    /// The value was fetched: carry the request to the node and hand its
    /// reply, with the value, to the last step.
    Check(RemoteRequest, T),
    /// The read is over, with this result.
    Done(Result<T, StateError>),
}

/// The contents of a cache: the pinned height and the values it holds.
pub struct CacheView {
    pub block_number: U256,
    pub accounts: Map<Address, AccountView>,
    pub storage: Map<(Address, U256), U256>,
}

impl CacheView {
    /// The account record the cache holds for `address`, if any.
    pub open spec fn cached_account(self, address: Address) -> Option<AccountView> {
        if self.accounts.contains_key(address) {
            Some(self.accounts[address])
        } else {
            None
        }
    }

    /// The value the cache holds for slot `index` of `address`, if any.
    pub open spec fn cached_storage(self, address: Address, index: U256) -> Option<U256> {
        if self.storage.contains_key((address, index)) {
            Some(self.storage[(address, index)])
        } else {
            None
        }
    }

    /// The cache after a fetched account and the node's answer on
    /// cacheability: the record is kept if and only if the height is cacheable.
    pub open spec fn account_checked(
        self,
        address: Address,
        a: AccountView,
        cacheable: Result<bool, TransportError>,
    ) -> CacheView {
        if cacheable == Ok::<bool, TransportError>(true) {
            CacheView {
                block_number: self.block_number,
                accounts: self.accounts.insert(address, a),
                storage: self.storage,
            }
        } else {
            self
        }
    }

    /// The cache after a fetched storage value and the node's answer on
    /// cacheability: the value is kept if and only if the height is cacheable.
    pub open spec fn storage_checked(
        self,
        address: Address,
        index: U256,
        v: U256,
        cacheable: Result<bool, TransportError>,
    ) -> CacheView {
        if cacheable == Ok::<bool, TransportError>(true) {
            CacheView {
                block_number: self.block_number,
                accounts: self.accounts,
                storage: self.storage.insert((address, index), v),
            }
        } else {
            self
        }
    }
}

/// A pinned remote view with memoized account and storage reads.
///
/// Entries are never evicted, and re-pinning keeps them: a cache belongs to
/// one height, and a view pinned anew wants a cache of its own.
pub struct CachedRemoteState {
    remote: RemoteState,
    accounts: Vec<(Address, AccountRecord)>,
    storage: Vec<(Address, U256, U256)>,
    account_map: Ghost<Map<Address, AccountView>>,
    storage_map: Ghost<Map<(Address, U256), U256>>,
}

impl View for CachedRemoteState {
    type V = CacheView;

    closed spec fn view(&self) -> CacheView {
        CacheView {
            block_number: self.remote@,
            accounts: self.account_map@,
            storage: self.storage_map@,
        }
    }
}

impl CachedRemoteState {
    /// The entries agree with the contents and hold each key once.
    pub closed spec fn wf(&self) -> bool {
        &&& forall|i: int|
            0 <= i < self.accounts@.len() ==> {
                &&& self.account_map@.contains_key(#[trigger] self.accounts@[i].0)
                &&& self.account_map@[self.accounts@[i].0] == self.accounts@[i].1@
            }
        &&& forall|k: Address|
            #[trigger] self.account_map@.contains_key(k) ==> exists|i: int|
                0 <= i < self.accounts@.len() && self.accounts@[i].0 == k
        &&& forall|i: int, j: int|
            0 <= i < j < self.accounts@.len() ==> #[trigger] self.accounts@[i].0
                != #[trigger] self.accounts@[j].0
        &&& forall|i: int|
            0 <= i < self.storage@.len() ==> {
                &&& self.storage_map@.contains_key(
                    (#[trigger] self.storage@[i].0, self.storage@[i].1),
                )
                &&& self.storage_map@[(self.storage@[i].0, self.storage@[i].1)]
                    == self.storage@[i].2
            }
        &&& forall|k: (Address, U256)|
            #[trigger] self.storage_map@.contains_key(k) ==> exists|i: int|
                0 <= i < self.storage@.len() && self.storage@[i].0 == k.0 && self.storage@[i].1
                    == k.1
        &&& forall|i: int, j: int|
            0 <= i < j < self.storage@.len() ==> (#[trigger] self.storage@[i].0, self.storage@[i].1)
                != (#[trigger] self.storage@[j].0, self.storage@[j].1)
    }

    /// An empty cache over `remote`.
    pub fn new(remote: RemoteState) -> (r: CachedRemoteState)
        ensures
            r.wf(),
            r@.block_number == remote@,
            r@.accounts == Map::<Address, AccountView>::empty(),
            r@.storage == Map::<(Address, U256), U256>::empty(),
    {
        CachedRemoteState {
            remote,
            accounts: Vec::new(),
            storage: Vec::new(),
            account_map: Ghost(Map::empty()),
            storage_map: Ghost(Map::empty()),
        }
    }

    /// The pinned view underneath.
    pub fn remote(&self) -> (r: &RemoteState)
        ensures
            r@ == self@.block_number,
    {
        &self.remote
    }

    /// The pinned block height.
    pub fn block_number(&self) -> (r: &U256)
        ensures
            *r == self@.block_number,
    {
        self.remote.block_number()
    }

    /// Pins the view underneath at `block_number`. The entries stay: they
    /// belong to the height they were fetched at.
    pub fn set_block_number(&mut self, block_number: &U256)
        requires
            old(self).wf(),
        ensures
            final(self).wf(),
            final(self)@.block_number == *block_number,
            final(self)@.accounts == old(self)@.accounts,
            final(self)@.storage == old(self)@.storage,
    {
        self.remote.set_block_number(block_number);
        proof {
            assert(self.accounts@ == old(self).accounts@);
            assert(self.account_map@ == old(self).account_map@);
            assert(self.storage@ == old(self).storage@);
            assert(self.storage_map@ == old(self).storage_map@);
        }
    }

    /// The position of the entry for `address`, if there is one.
    fn find_account(&self, address: Address) -> (r: Option<usize>)
        requires
            self.wf(),
        ensures
            match r {
                Some(i) => i < self.accounts@.len() && self.accounts@[i as int].0 == address,
                None => forall|j: int|
                    0 <= j < self.accounts@.len() ==> self.accounts@[j].0 != address,
            },
    {
        let mut i: usize = 0;
        while i < self.accounts.len()
            invariant
                self.wf(),
                i <= self.accounts@.len(),
                forall|j: int| 0 <= j < i ==> self.accounts@[j].0 != address,
            decreases self.accounts@.len() - i,
        {
            if self.accounts[i].0 == address {
                return Some(i);
            }
            i = i + 1;
        }
        None
    }

    /// The position of the entry for slot `index` of `address`, if there is one.
    fn find_storage(&self, address: Address, index: U256) -> (r: Option<usize>)
        requires
            self.wf(),
        ensures
            match r {
                Some(i) => i < self.storage@.len() && self.storage@[i as int].0 == address
                    && self.storage@[i as int].1 == index,
                None => forall|j: int|
                    0 <= j < self.storage@.len() ==> (self.storage@[j].0, self.storage@[j].1)
                        != (address, index),
            },
    {
        let mut i: usize = 0;
        while i < self.storage.len()
            invariant
                self.wf(),
                i <= self.storage@.len(),
                forall|j: int|
                    0 <= j < i ==> (self.storage@[j].0, self.storage@[j].1) != (address, index),
            decreases self.storage@.len() - i,
        {
            if self.storage[i].0 == address && self.storage[i].1 == index {
                return Some(i);
            }
            i = i + 1;
        }
        None
    }

    /// First step of an account read: the cached record, or the request for it.
    pub fn basic(&self, address: Address) -> (r: Read<AccountRecord>)
        requires
            self.wf(),
        ensures
            match self@.cached_account(address) {
                Some(a) => r is Done && r->Done_0 is Ok && r->Done_0->Ok_0@ == a,
                None => r == Read::<AccountRecord>::Fetch(
                    account_request_at(self@.block_number, address),
                ),
            },
    {
        match self.find_account(address) {
            Some(i) => Read::Done(Ok(self.accounts[i].1.clone())),
            None => Read::Fetch(self.remote.basic_request(address)),
        }
    }

    /// Second step of an account read, from the node's reply to the request
    /// of the first: the record it gives and the cacheability request, or the
    /// transport error.
    pub fn basic_fetched(&self, reply: Result<Option<AccountRecord>, TransportError>) -> (r: Read<
        AccountRecord,
    >)
        ensures
            match reply {
                Ok(a) => r is Check && r->Check_0 == (RemoteRequest::IsCacheableBlockNumber {
                    block_number: self@.block_number,
                }) && is_account_of_reply(a, r->Check_1@),
                Err(e) => r == Read::<AccountRecord>::Done(Err(StateError::Remote(e))),
            },
    {
        match RemoteState::basic(reply) {
            Ok(a) => Read::Check(self.remote.is_cacheable_request(), a),
            Err(e) => Read::Done(Err(e)),
        }
    }

    /// Last step of an account read, from the record fetched for `address`
    /// and the node's answer on cacheability: keeps the record if and only if
    /// the height is cacheable, and returns it; a failed answer is returned
    /// and keeps nothing.
    pub fn basic_checked(
        &mut self,
        address: Address,
        account: AccountRecord,
        cacheable: Result<bool, TransportError>,
    ) -> (r: Result<AccountRecord, StateError>)
        requires
            old(self).wf(),
        ensures
            final(self).wf(),
            final(self)@ == old(self)@.account_checked(address, account@, cacheable),
            r == match cacheable {
                Ok(_) => Ok::<AccountRecord, StateError>(account),
                Err(e) => Err(StateError::Remote(e)),
            },
    {
        match cacheable {
            Ok(true) => {
                self.insert_account(address, account.clone());
                Ok(account)
            },
            Ok(false) => Ok(account),
            Err(e) => Err(StateError::Remote(e)),
        }
    }

    fn insert_account(&mut self, address: Address, account: AccountRecord)
        requires
            old(self).wf(),
        ensures
            final(self).wf(),
            final(self)@ == (CacheView {
                block_number: old(self)@.block_number,
                accounts: old(self)@.accounts.insert(address, account@),
                storage: old(self)@.storage,
            }),
    {
        let ghost old_map = self.account_map@;
        let found = self.find_account(address);
        let ghost view = account@;
        let ghost old_entries = self.accounts@;
        let ghost at = match found {
            Some(i) => i as int,
            None => old_entries.len() as int,
        };
        match found {
            Some(i) => self.accounts.set(i, (address, account)),
            None => self.accounts.push((address, account)),
        }
        self.account_map = Ghost(old_map.insert(address, view));
        proof {
            assert(self.accounts@.len() >= old_entries.len());
            assert forall|j: int| 0 <= j < old_entries.len() && j != at implies self.accounts@[j]
                == old_entries[j] && old_entries[j].0 != address by {}
            assert(self.accounts@[at] == (address, account));
            assert(self.storage@ == old(self).storage@);
            assert(self.storage_map@ == old(self).storage_map@);
            assert(self.accounts@.len() == old_entries.len() || self.accounts@.len()
                == old_entries.len() + 1);
            assert forall|j: int| 0 <= j < self.accounts@.len() implies {
                &&& self.account_map@.contains_key(#[trigger] self.accounts@[j].0)
                &&& self.account_map@[self.accounts@[j].0] == self.accounts@[j].1@
            } by {
                if j != at {
                    assert(self.accounts@[j] == old_entries[j]);
                }
            }
            assert forall|j1: int, j2: int|
                0 <= j1 < j2 < self.accounts@.len() implies #[trigger] self.accounts@[j1].0
                != #[trigger] self.accounts@[j2].0 by {
                if j1 != at && j2 != at {
                    assert(self.accounts@[j1] == old_entries[j1]);
                    assert(self.accounts@[j2] == old_entries[j2]);
                } else if j1 == at {
                    assert(self.accounts@[j2] == old_entries[j2]);
                } else {
                    assert(self.accounts@[j1] == old_entries[j1]);
                }
            }
            assert forall|k: Address| #[trigger] self.account_map@.contains_key(k) implies exists|
                j: int,
            | 0 <= j < self.accounts@.len() && self.accounts@[j].0 == k by {
                if k != address {
                    let j = choose|j: int| 0 <= j < old_entries.len() && old_entries[j].0 == k;
                    assert(self.accounts@[j].0 == k);
                } else {
                    assert(self.accounts@[at].0 == k);
                }
            }
        }
    }

    /// First step of a storage read: the cached value, or the request for it.
    pub fn storage(&self, address: Address, index: U256) -> (r: Read<U256>)
        requires
            self.wf(),
        ensures
            match self@.cached_storage(address, index) {
                Some(v) => r == Read::<U256>::Done(Ok(v)),
                None => r == Read::<U256>::Fetch(
                    RemoteRequest::StorageAt { address, index, block_number: self@.block_number },
                ),
            },
    {
        match self.find_storage(address, index) {
            Some(i) => Read::Done(Ok(self.storage[i].2)),
            None => Read::Fetch(self.remote.storage_request(address, index)),
        }
    }

    /// Second step of a storage read, from the node's reply to the request of
    /// the first: the value it gives (zero for an unset slot) and the
    /// cacheability request, or the transport error.
    pub fn storage_fetched(&self, reply: Result<Option<U256>, TransportError>) -> (r: Read<U256>)
        ensures
            match reply {
                Ok(Some(v)) => r == Read::<U256>::Check(
                    RemoteRequest::IsCacheableBlockNumber { block_number: self@.block_number },
                    v,
                ),
                Ok(None) => r is Check && r->Check_0 == (RemoteRequest::IsCacheableBlockNumber {
                    block_number: self@.block_number,
                }) && r->Check_1.value() == 0,
                Err(e) => r == Read::<U256>::Done(Err(StateError::Remote(e))),
            },
    {
        match RemoteState::storage(reply) {
            Ok(v) => Read::Check(self.remote.is_cacheable_request(), v),
            Err(e) => Read::Done(Err(e)),
        }
    }

    /// Last step of a storage read, from the value fetched for slot `index`
    /// of `address` and the node's answer on cacheability: keeps the value if
    /// and only if the height is cacheable, and returns it; a failed answer is
    /// returned and keeps nothing.
    pub fn storage_checked(
        &mut self,
        address: Address,
        index: U256,
        value: U256,
        cacheable: Result<bool, TransportError>,
    ) -> (r: Result<U256, StateError>)
        requires
            old(self).wf(),
        ensures
            final(self).wf(),
            final(self)@ == old(self)@.storage_checked(address, index, value, cacheable),
            r == match cacheable {
                Ok(_) => Ok::<U256, StateError>(value),
                Err(e) => Err(StateError::Remote(e)),
            },
    {
        match cacheable {
            Ok(true) => {
                self.insert_storage(address, index, value);
                Ok(value)
            },
            Ok(false) => Ok(value),
            Err(e) => Err(StateError::Remote(e)),
        }
    }

    fn insert_storage(&mut self, address: Address, index: U256, value: U256)
        requires
            old(self).wf(),
        ensures
            final(self).wf(),
            final(self)@ == (CacheView {
                block_number: old(self)@.block_number,
                accounts: old(self)@.accounts,
                storage: old(self)@.storage.insert((address, index), value),
            }),
    {
        let ghost old_map = self.storage_map@;
        let found = self.find_storage(address, index);
        let ghost old_entries = self.storage@;
        let ghost at = match found {
            Some(i) => i as int,
            None => old_entries.len() as int,
        };
        match found {
            Some(i) => self.storage.set(i, (address, index, value)),
            None => self.storage.push((address, index, value)),
        }
        self.storage_map = Ghost(old_map.insert((address, index), value));
        proof {
            assert(self.storage@.len() >= old_entries.len());
            assert forall|j: int| 0 <= j < old_entries.len() && j != at implies self.storage@[j]
                == old_entries[j] && (old_entries[j].0, old_entries[j].1) != (address, index) by {}
            assert(self.storage@[at] == (address, index, value));
            assert(self.accounts@ == old(self).accounts@);
            assert(self.account_map@ == old(self).account_map@);
            assert(self.storage@.len() == old_entries.len() || self.storage@.len()
                == old_entries.len() + 1);
            assert forall|j: int| 0 <= j < self.storage@.len() implies {
                &&& self.storage_map@.contains_key((#[trigger] self.storage@[j].0, self.storage@[j].1))
                &&& self.storage_map@[(self.storage@[j].0, self.storage@[j].1)] == self.storage@[j].2
            } by {
                if j != at {
                    assert(self.storage@[j] == old_entries[j]);
                }
            }
            assert forall|j1: int, j2: int|
                0 <= j1 < j2 < self.storage@.len() implies (#[trigger] self.storage@[j1].0,
                self.storage@[j1].1) != (#[trigger] self.storage@[j2].0, self.storage@[j2].1) by {
                if j1 != at && j2 != at {
                    assert(self.storage@[j1] == old_entries[j1]);
                    assert(self.storage@[j2] == old_entries[j2]);
                } else if j1 == at {
                    assert(self.storage@[j2] == old_entries[j2]);
                } else {
                    assert(self.storage@[j1] == old_entries[j1]);
                }
            }
            assert forall|k: (Address, U256)| #[trigger] self.storage_map@.contains_key(k) implies exists|
                j: int,
            | 0 <= j < self.storage@.len() && self.storage@[j].0 == k.0 && self.storage@[j].1
                == k.1 by {
                if k != (address, index) {
                    let j = choose|j: int|
                        0 <= j < old_entries.len() && old_entries[j].0 == k.0 && old_entries[j].1
                            == k.1;
                    assert(self.storage@[j].0 == k.0);
                } else {
                    assert(self.storage@[at].0 == k.0);
                }
            }
        }
    }

    /// Code looked up by its hash alone: never served and never cached, as
    /// in the view underneath. No request is made.
    pub fn code_by_hash(&self, code_hash: B256) -> (r: Result<Vec<u8>, StateError>)
        ensures
            r == Err::<Vec<u8>, StateError>(StateError::InvalidCodeHash(code_hash)),
    {
        self.remote.code_by_hash(code_hash)
    }
}

/// An account read through the cache at a height that the node reports as
/// cacheable keeps the record it returns: whatever record `a` the fetch step
/// gave, the next read of `address` is served from the cache, issuing no
/// request, and returns that same record.
pub proof fn lemma_cacheable_account_read_repeats(
    cache: CacheView,
    address: Address,
    reply: Option<AccountRecord>,
    a: AccountView,
)
    requires
        is_account_of_reply(reply, a),
    ensures
        cache.account_checked(address, a, Ok(true)).cached_account(address) == Some(a),
{
}

/// At a height that the node reports as not cacheable, or where its answer
/// failed, a storage read keeps nothing: the cache stays as it was, so a slot
/// it did not hold is still not held and the next read of it issues a fresh
/// request.
pub proof fn lemma_uncacheable_storage_read_not_kept(
    cache: CacheView,
    address: Address,
    index: U256,
    v: U256,
    cacheable: Result<bool, TransportError>,
)
    requires
        cacheable != Ok::<bool, TransportError>(true),
    ensures
        cache.storage_checked(address, index, v, cacheable) == cache,
        cache.cached_storage(address, index) is None ==> cache.storage_checked(
            address,
            index,
            v,
            cacheable,
        ).cached_storage(address, index) is None,
{
}

} // verus!
