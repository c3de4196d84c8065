use std::cell::Cell;

use remote_state::account::AccountRecord;
use remote_state::cached::{CachedRemoteState, Read};
use remote_state::config::{try_cast_u64, BigInt, ConfigError, ForkConfig, RpcForkConfig, TransactionConfig};
use remote_state::error::{StateError, TransportError};
use remote_state::primitives::{Address, B256, U256};
use remote_state::remote::{RemoteRequest, RemoteState};

fn hex_bytes(s: &str) -> Vec<u8> {
    let s = s.trim_start_matches("0x");
    (0..s.len())
        .step_by(2)
        .map(|i| u8::from_str_radix(&s[i..i + 2], 16).expect("hex digit"))
        .collect()
}

fn address(s: &str) -> Address {
    Address::from_slice(&hex_bytes(s))
}

fn dai() -> Address {
    address("0x6b175474e89094c44da98b954eedeac495271d0f")
}

fn record(balance: u64, nonce: u64) -> AccountRecord {
    AccountRecord {
        balance: U256::from_u64(balance),
        nonce,
        code_hash: B256 { bytes: [7u8; 32] },
        code: Some(vec![0x60, 0x00]),
    }
}

/// A stand-in for the remote node that counts the requests it answers.
struct FakeNode {
    calls: Cell<usize>,
    cacheable: Result<bool, TransportError>,
    fail_fetch: bool,
}

impl FakeNode {
    fn new(cacheable: bool) -> FakeNode {
        FakeNode { calls: Cell::new(0), cacheable: Ok(cacheable), fail_fetch: false }
    }

    fn transport_error() -> TransportError {
        TransportError { message: String::from("connection reset") }
    }

    /// Accounts: DAI has balance 0 and nonce 1 at any height; other addresses
    /// have a balance equal to the height and nonce 3; the zero address does not exist.
    fn account(&self, request: &RemoteRequest) -> Result<Option<AccountRecord>, TransportError> {
        self.calls.set(self.calls.get() + 1);
        if self.fail_fetch {
            return Err(Self::transport_error());
        }
        match request {
            RemoteRequest::AccountInfo { address, block_number } => {
                if *address == dai() {
                    Ok(Some(record(0, 1)))
                } else if address.bytes == [0u8; 20] {
                    Ok(None)
                } else {
                    Ok(Some(record(block_number.limbs[0], 3)))
                }
            }
            _ => panic!("not an account request"),
        }
    }

    /// Storage: slot 1 holds 42; every other slot is unset.
    fn storage(&self, request: &RemoteRequest) -> Result<Option<U256>, TransportError> {
        self.calls.set(self.calls.get() + 1);
        if self.fail_fetch {
            return Err(Self::transport_error());
        }
        match request {
            RemoteRequest::StorageAt { index, .. } => {
                if *index == U256::from_u64(1) {
                    Ok(Some(U256::from_u64(42)))
                } else {
                    Ok(None)
                }
            }
            _ => panic!("not a storage request"),
        }
    }

    fn is_cacheable(&self, request: &RemoteRequest) -> Result<bool, TransportError> {
        self.calls.set(self.calls.get() + 1);
        assert!(matches!(request, RemoteRequest::IsCacheableBlockNumber { .. }));
        self.cacheable.clone()
    }
}

fn read_account(
    cache: &mut CachedRemoteState,
    node: &FakeNode,
    address: Address,
) -> Result<AccountRecord, StateError> {
    let request = match cache.basic(address) {
        Read::Done(r) => return r,
        Read::Fetch(request) => request,
        Read::Check(..) => unreachable!(),
    };
    let (request, account) = match cache.basic_fetched(node.account(&request)) {
        Read::Done(r) => return r,
        Read::Check(request, account) => (request, account),
        Read::Fetch(_) => unreachable!(),
    };
    cache.basic_checked(address, account, node.is_cacheable(&request))
}

fn read_storage(
    cache: &mut CachedRemoteState,
    node: &FakeNode,
    address: Address,
    index: U256,
) -> Result<U256, StateError> {
    let request = match cache.storage(address, index) {
        Read::Done(r) => return r,
        Read::Fetch(request) => request,
        Read::Check(..) => unreachable!(),
    };
    let (request, value) = match cache.storage_fetched(node.storage(&request)) {
        Read::Done(r) => return r,
        Read::Check(request, value) => (request, value),
        Read::Fetch(_) => unreachable!(),
    };
    cache.storage_checked(address, index, value, node.is_cacheable(&request))
}

#[test]
fn basic_success() {
    let node = FakeNode::new(true);
    let state = RemoteState::new(U256::from_u64(16643427));
    let request = state.basic_request(dai());
    assert_eq!(
        request,
        RemoteRequest::AccountInfo { address: dai(), block_number: U256::from_u64(16643427) }
    );
    let account_info = RemoteState::basic(node.account(&request)).expect("should succeed");
    assert_eq!(account_info.balance, U256::from_u64(0));
    assert_eq!(account_info.nonce, 1);
}

#[test]
fn cached_read_at_cacheable_height_issues_no_second_request() {
    let node = FakeNode::new(true);
    let mut cache = CachedRemoteState::new(RemoteState::new(U256::from_u64(16643427)));
    let first = read_account(&mut cache, &node, dai()).expect("first read");
    assert_eq!(node.calls.get(), 2);
    assert_eq!(first.balance, U256::from_u64(0));
    assert_eq!(first.nonce, 1);
    let second = read_account(&mut cache, &node, dai()).expect("second read");
    assert_eq!(node.calls.get(), 2);
    assert_eq!(first, second);
}

#[test]
fn storage_at_uncacheable_height_is_fetched_every_time() {
    let node = FakeNode::new(false);
    let mut cache = CachedRemoteState::new(RemoteState::new(U256::from_u64(100)));
    let index = U256::from_u64(1);
    assert_eq!(read_storage(&mut cache, &node, dai(), index), Ok(U256::from_u64(42)));
    assert_eq!(node.calls.get(), 2);
    assert_eq!(read_storage(&mut cache, &node, dai(), index), Ok(U256::from_u64(42)));
    assert_eq!(node.calls.get(), 4);
    assert_eq!(read_storage(&mut cache, &node, dai(), index), Ok(U256::from_u64(42)));
    assert_eq!(node.calls.get(), 6);
}

#[test]
fn storage_at_cacheable_height_is_kept() {
    let node = FakeNode::new(true);
    let mut cache = CachedRemoteState::new(RemoteState::new(U256::from_u64(100)));
    let index = U256::from_u64(1);
    assert_eq!(read_storage(&mut cache, &node, dai(), index), Ok(U256::from_u64(42)));
    assert_eq!(read_storage(&mut cache, &node, dai(), index), Ok(U256::from_u64(42)));
    assert_eq!(node.calls.get(), 2);
    // Another slot of the same address is a separate entry.
    assert_eq!(read_storage(&mut cache, &node, dai(), U256::from_u64(9)), Ok(U256::zero()));
    assert_eq!(node.calls.get(), 4);
}

#[test]
fn unset_storage_reads_as_zero() {
    let state = RemoteState::new(U256::from_u64(5));
    assert_eq!(RemoteState::storage(Ok(None)), Ok(U256::zero()));
    assert_eq!(RemoteState::storage(Ok(Some(U256::from_u64(3)))), Ok(U256::from_u64(3)));
    let node = FakeNode::new(false);
    let request = state.storage_request(dai(), U256::from_u64(2));
    assert_eq!(RemoteState::storage(node.storage(&request)), Ok(U256::zero()));
    assert_eq!(U256::zero().limbs, [0u64; 4]);
}

#[test]
fn code_by_hash_always_fails() {
    let hash = B256 { bytes: [0xab; 32] };
    let state = RemoteState::new(U256::from_u64(1));
    assert_eq!(state.code_by_hash(hash), Err(StateError::InvalidCodeHash(hash)));
    let cache = CachedRemoteState::new(state);
    assert_eq!(cache.code_by_hash(hash), Err(StateError::InvalidCodeHash(hash)));
    assert_eq!(
        cache.code_by_hash(B256::keccak_empty()),
        Err(StateError::InvalidCodeHash(B256::keccak_empty()))
    );
}

#[test]
fn repinned_view_reads_new_height() {
    let node = FakeNode::new(true);
    let other = address("0x00000000000000000000000000000000000000aa");
    let mut state = RemoteState::new(U256::from_u64(10));
    let at_ten = RemoteState::basic(node.account(&state.basic_request(other))).unwrap();
    assert_eq!(at_ten.balance, U256::from_u64(10));
    state.set_block_number(&U256::from_u64(20));
    assert_eq!(*state.block_number(), U256::from_u64(20));
    let at_twenty = RemoteState::basic(node.account(&state.basic_request(other))).unwrap();
    assert_eq!(at_twenty.balance, U256::from_u64(20));
    assert_eq!(
        state.is_cacheable_request(),
        RemoteRequest::IsCacheableBlockNumber { block_number: U256::from_u64(20) }
    );
}

#[test]
fn cache_repin_keeps_entries_and_moves_requests() {
    let node = FakeNode::new(true);
    let other = address("0x00000000000000000000000000000000000000bb");
    let third = address("0x00000000000000000000000000000000000000cc");
    let mut cache = CachedRemoteState::new(RemoteState::new(U256::from_u64(10)));
    read_account(&mut cache, &node, other).unwrap();
    cache.set_block_number(&U256::from_u64(30));
    assert_eq!(*cache.block_number(), U256::from_u64(30));
    assert_eq!(*cache.remote().block_number(), U256::from_u64(30));
    assert!(matches!(cache.basic(other), Read::Done(Ok(_))));
    match cache.basic(third) {
        Read::Fetch(request) => assert_eq!(
            request,
            RemoteRequest::AccountInfo { address: third, block_number: U256::from_u64(30) }
        ),
        _ => panic!("expected a request"),
    }
}

#[test]
fn absent_account_is_default_record() {
    let node = FakeNode::new(true);
    let zero = Address { bytes: [0u8; 20] };
    let state = RemoteState::new(U256::from_u64(1));
    let account = RemoteState::basic(node.account(&state.basic_request(zero))).unwrap();
    assert_eq!(account.balance, U256::zero());
    assert_eq!(account.nonce, 0);
    assert_eq!(
        account.code_hash.bytes.to_vec(),
        hex_bytes("0xc5d2460186f7233c927e7db2dcc703c0e500b653ca82273b7bfad8045d85a470")
    );
    assert_eq!(account.code, None);
}

#[test]
fn transport_failures_propagate_and_keep_nothing() {
    let mut node = FakeNode::new(true);
    node.fail_fetch = true;
    let mut cache = CachedRemoteState::new(RemoteState::new(U256::from_u64(1)));
    assert_eq!(
        read_account(&mut cache, &node, dai()),
        Err(StateError::Remote(FakeNode::transport_error()))
    );
    assert_eq!(
        read_storage(&mut cache, &node, dai(), U256::from_u64(1)),
        Err(StateError::Remote(FakeNode::transport_error()))
    );
    let mut node = FakeNode::new(true);
    node.cacheable = Err(FakeNode::transport_error());
    assert_eq!(
        read_account(&mut cache, &node, dai()),
        Err(StateError::Remote(FakeNode::transport_error()))
    );
    assert!(matches!(cache.basic(dai()), Read::Fetch(_)));
}

#[test]
fn cacheability_and_state_root_replies() {
    let state = RemoteState::new(U256::from_u64(7));
    assert_eq!(RemoteState::is_cacheable(Ok(true)), Ok(true));
    assert_eq!(RemoteState::is_cacheable(Ok(false)), Ok(false));
    assert_eq!(
        RemoteState::is_cacheable(Err(FakeNode::transport_error())),
        Err(StateError::Remote(FakeNode::transport_error()))
    );
    assert_eq!(
        RemoteState::state_root_request(U256::from_u64(3)),
        RemoteRequest::BlockByNumber { block_number: U256::from_u64(3) }
    );
    let root = B256 { bytes: [9u8; 32] };
    assert_eq!(RemoteState::state_root(Ok(root)), Ok(root));
    assert_eq!(
        RemoteState::state_root(Err(FakeNode::transport_error())),
        Err(StateError::Remote(FakeNode::transport_error()))
    );
    assert_eq!(*state.block_number(), U256::from_u64(7));
}

#[test]
fn equality_of_fixed_width_values() {
    assert_eq!(dai(), dai());
    assert_ne!(dai(), Address { bytes: [0u8; 20] });
    assert_ne!(U256::from_u64(1), U256::from_u64(2));
    assert_ne!(U256 { limbs: [0, 0, 0, 1] }, U256::zero());
    assert_eq!(dai().bytes[0], 0x6b);
    assert_eq!(dai().bytes[19], 0x0f);
}

#[test]
fn big_int_casts() {
    let big = |sign_bit: bool, words: Vec<u64>| BigInt { sign_bit, words };
    assert_eq!(try_cast_u64(&big(false, vec![5])), Ok(5));
    assert_eq!(try_cast_u64(&big(false, vec![u64::MAX])), Ok(u64::MAX));
    assert_eq!(try_cast_u64(&big(false, vec![])), Ok(0));
    assert_eq!(try_cast_u64(&big(false, vec![7, 0, 0])), Ok(7));
    assert_eq!(try_cast_u64(&big(true, vec![0])), Ok(0));
    assert_eq!(try_cast_u64(&big(true, vec![1])), Err(ConfigError::Negative));
    assert_eq!(try_cast_u64(&big(true, vec![0, 1])), Err(ConfigError::Negative));
    assert_eq!(try_cast_u64(&big(false, vec![0, 1])), Err(ConfigError::TooLarge));
}

#[test]
fn fork_config_conversion() {
    let url = String::from("http://localhost:8545");
    let converted = RpcForkConfig::try_from(ForkConfig {
        json_rpc_url: url.clone(),
        block_number: Some(BigInt { sign_bit: false, words: vec![16643427] }),
    });
    assert_eq!(
        converted,
        Ok(RpcForkConfig { json_rpc_url: url.clone(), block_number: Some(16643427) })
    );
    let latest = RpcForkConfig::try_from(ForkConfig { json_rpc_url: url.clone(), block_number: None });
    assert_eq!(latest, Ok(RpcForkConfig { json_rpc_url: url.clone(), block_number: None }));
    let negative = RpcForkConfig::try_from(ForkConfig {
        json_rpc_url: url.clone(),
        block_number: Some(BigInt { sign_bit: true, words: vec![3] }),
    });
    assert_eq!(negative, Err(ConfigError::Negative));
    let too_large = RpcForkConfig::try_from(ForkConfig {
        json_rpc_url: url,
        block_number: Some(BigInt { sign_bit: false, words: vec![1, 1] }),
    });
    assert_eq!(too_large, Err(ConfigError::TooLarge));
    let options = TransactionConfig { disable_balance_check: Some(true) };
    assert_eq!(options.disable_balance_check, Some(true));
}
