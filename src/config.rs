//! Configuration values as a JavaScript host hands them over, and their
//! conversion into the values the provider runs with.
use vstd::prelude::*;

verus! {

/// An arbitrary-precision integer as a JavaScript host passes it: a sign and
/// a magnitude in 64-bit words, least significant first.
#[derive(Clone, Debug, PartialEq, Eq)]
pub struct BigInt {
    pub sign_bit: bool,
    pub words: Vec<u64>,
}

/// The number that `words` stand for, least significant word first.
pub open spec fn words_value(words: Seq<u64>) -> nat
    decreases words.len(),
{
    if words.len() == 0 {
        0
    } else {
        words[0] as nat + 0x1_0000_0000_0000_0000 * words_value(words.drop_first())
    }
}

/// A magnitude is zero exactly when each of its words is.
proof fn lemma_words_value_zero(words: Seq<u64>)
    ensures
        words_value(words) == 0 <==> forall|j: int| 0 <= j < words.len() ==> words[j] == 0,
    decreases words.len(),
{
    if words.len() > 0 {
        lemma_words_value_zero(words.drop_first());
        if forall|j: int| 0 <= j < words.drop_first().len() ==> words.drop_first()[j] == 0 {
            if words[0] == 0 {
                assert forall|j: int| 0 <= j < words.len() implies words[j] == 0 by {
                    if j > 0 {
                        assert(words[j] == words.drop_first()[j - 1]);
                    }
                }
            }
        } else {
            let j = choose|j: int|
                0 <= j < words.drop_first().len() && words.drop_first()[j] != 0;
            assert(words[j + 1] != 0);
        }
    }
}

impl BigInt {
    /// The magnitude.
    pub open spec fn magnitude(&self) -> nat {
        words_value(self.words@)
    }

    /// The signed value.
    pub open spec fn value(&self) -> int {
        if self.sign_bit {
            -(self.magnitude() as int)
        } else {
            self.magnitude() as int
        }
    }
}

/// Why a configuration value could not be converted.
#[derive(Clone, Copy, Debug, PartialEq, Eq)]
pub enum ConfigError {
    /// A value that must not be negative was.
    Negative,
    /// A value did not fit in 64 bits.
    TooLarge,
}

/// The value of `v` as a 64-bit unsigned integer: it must be neither
/// negative nor at least two to the power 64.
pub fn try_cast_u64(v: &BigInt) -> (r: Result<u64, ConfigError>)
    ensures
        v.value() < 0 ==> r == Err::<u64, ConfigError>(ConfigError::Negative),
        v.value() >= 0x1_0000_0000_0000_0000 ==> r == Err::<u64, ConfigError>(
            ConfigError::TooLarge,
        ),
        0 <= v.value() < 0x1_0000_0000_0000_0000 ==> r == Ok::<u64, ConfigError>(
            v.value() as u64,
        ),
{
    let n = v.words.len();
    let mut i: usize = 1;
    while i < n
        invariant
            n == v.words@.len(),
            1 <= i,
            forall|j: int| 1 <= j < i && j < n ==> v.words@[j] == 0,
        ensures
            i >= n || v.words@[i as int] != 0,
            forall|j: int| 1 <= j < i && j < n ==> v.words@[j] == 0,
        decreases n - i,
    {
        if v.words[i] != 0 {
            break;
        }
        i = i + 1;
    }
    let high_zero = i >= n;
    let low: u64 = if n == 0 {
        0
    } else {
        v.words[0]
    };
    proof {
        let w = v.words@;
        if n == 0 {
            assert(v.magnitude() == 0);
        }
        if n > 0 {
            assert(v.magnitude() == w[0] as nat + 0x1_0000_0000_0000_0000 * words_value(
                w.drop_first(),
            ));
            lemma_words_value_zero(w.drop_first());
            if high_zero {
                assert forall|j: int| 0 <= j < w.drop_first().len() implies w.drop_first()[j]
                    == 0 by {
                    assert(w.drop_first()[j] == w[j + 1]);
                }
                assert(v.magnitude() == low);
            } else {
                assert(w.drop_first()[i - 1] == w[i as int]);
            }
        }
    }
    if !high_zero {
        if v.sign_bit {
            Err(ConfigError::Negative)
        } else {
            Err(ConfigError::TooLarge)
        }
    } else if v.sign_bit && low != 0 {
        Err(ConfigError::Negative)
    } else {
        Ok(low)
    }
}

/// The configuration for forking a blockchain, as a host passes it.
#[derive(Clone, Debug, PartialEq, Eq)]
pub struct ForkConfig {
    /// The URL of the JSON-RPC endpoint to fork from.
    pub json_rpc_url: String,
    /// The block number to fork from; where absent, the latest safe block.
    pub block_number: Option<BigInt>,
}

/// The configuration for forking a blockchain that the provider runs with.
#[derive(Clone, Debug, PartialEq, Eq)]
pub struct RpcForkConfig {
    /// The URL of the JSON-RPC endpoint to fork from.
    pub json_rpc_url: String,
    /// The block number to fork from; where absent, the latest safe block.
    pub block_number: Option<u64>,
}

impl RpcForkConfig {
    /// Converts the host's fork configuration: the URL as it is and the block
    /// number as a 64-bit integer, failing where the block number is negative
    /// or too large.
    pub fn try_from(value: ForkConfig) -> (r: Result<RpcForkConfig, ConfigError>)
        ensures
            match value.block_number {
                None => r == Ok::<RpcForkConfig, ConfigError>(
                    RpcForkConfig { json_rpc_url: value.json_rpc_url, block_number: None },
                ),
                Some(b) => if b.value() < 0 {
                    r == Err::<RpcForkConfig, ConfigError>(ConfigError::Negative)
                } else if b.value() >= 0x1_0000_0000_0000_0000 {
                    r == Err::<RpcForkConfig, ConfigError>(ConfigError::TooLarge)
                } else {
                    r == Ok::<RpcForkConfig, ConfigError>(
                        RpcForkConfig {
                            json_rpc_url: value.json_rpc_url,
                            block_number: Some(b.value() as u64),
                        },
                    )
                },
            },
    {
        let block_number = match &value.block_number {
            None => None,
            Some(b) => match try_cast_u64(b) {
                Ok(n) => Some(n),
                Err(e) => {
                    return Err(e);
                },
            },
        };
        Ok(RpcForkConfig { json_rpc_url: value.json_rpc_url, block_number })
    }
}

/// Options for a single transaction, as a host passes them.
#[derive(Clone, Copy, Debug, PartialEq, Eq)]
pub struct TransactionConfig {
    /// Whether to skip the check that the sender can pay for the transaction.
    pub disable_balance_check: Option<bool>,
}

} // verus!
