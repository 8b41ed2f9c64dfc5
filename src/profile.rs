use vstd::prelude::*;

verus! {

/// Chain identifier reserved for local development networks.
pub const DEV_CHAIN_ID: u64 = 31337;

/// Memory ceiling of the virtual machine, in bytes (16 MiB).
pub const MEMORY_LIMIT: u64 = 16777216;

/// A 20-byte account address: the top four bytes in `high`, the other sixteen in `low`.
#[derive(Clone, Copy, Debug, PartialEq, Eq, Structural)]
pub struct Address {
    pub high: u32,
    pub low: u128,
}

impl Address {
    pub open spec fn value(self) -> nat {
        self.high as nat * pow2_128() + self.low as nat
    }
}

/// Top four bytes of the default sender `0x1804c8AB1F12E6bbf3894d4083f33e07309d1f38`.
pub const DEFAULT_SENDER_HIGH: u32 = 0x1804c8ab;

/// Other sixteen bytes of the default sender.
pub const DEFAULT_SENDER_LOW: u128 = 0x1f12e6bbf3894d4083f33e07309d1f38;

pub open spec fn spec_default_sender() -> Address {
    Address { high: DEFAULT_SENDER_HIGH, low: DEFAULT_SENDER_LOW }
}

/// The well-known default sender of test transactions.
pub fn default_sender() -> (r: Address)
    ensures
        r == spec_default_sender(),
{
    Address { high: DEFAULT_SENDER_HIGH, low: DEFAULT_SENDER_LOW }
}

/// An unsigned 256-bit quantity: the top half in `high`, the bottom half in `low`.
#[derive(Clone, Copy, Debug, PartialEq, Eq, Structural)]
pub struct Word {
    pub high: u128,
    pub low: u128,
}

impl Word {
    pub open spec fn value(self) -> nat {
        self.high as nat * pow2_128() + self.low as nat
    }

    /// The largest 256-bit value.
    pub fn max_value() -> (r: Word)
        ensures
            r.value() == pow2_256() - 1,
    {
        let r = Word { high: u128::MAX, low: u128::MAX };
        r
    }
}

pub open spec fn pow2_128() -> nat {
    0x1_0000_0000_0000_0000 * 0x1_0000_0000_0000_0000
}

pub open spec fn pow2_256() -> nat {
    pow2_128() * pow2_128()
}

/// The fixed parameters shared by every execution of a session.
#[derive(Clone, Copy, Debug, PartialEq, Eq, Structural)]
pub struct EnvironmentProfile {
    pub sender: Address,
    pub tx_origin: Address,
    pub initial_balance: Word,
    pub gas_limit: u64,
    pub chain_id: u64,
    pub block_number: u64,
    pub block_timestamp: u64,
    /// `None`: deployed code of any size is accepted.
    pub code_size_limit: Option<u64>,
    pub memory_limit: u64,
    /// Whether contract code may invoke external processes.
    pub ffi: bool,
}

/// Two sessions observe the same chain parameters: a deterministic profile is unique.
pub proof fn lemma_profile_unique(p: EnvironmentProfile, q: EnvironmentProfile)
    requires
        p.is_deterministic(),
        q.is_deterministic(),
    ensures
        p == q,
{
    lemma_word_value_unique(p.initial_balance, q.initial_balance);
}

/// A word is fixed by its value.
pub proof fn lemma_word_value_unique(a: Word, b: Word)
    requires
        a.value() == b.value(),
    ensures
        a == b,
{
    let m: int = pow2_128() as int;
    assert(a.high == b.high && a.low == b.low) by (nonlinear_arith)
        requires
            a.high as int * m + a.low as int == b.high as int * m + b.low as int,
            0 <= a.low < m,
            0 <= b.low < m,
            0 <= a.high,
            0 <= b.high,
            m > 0,
    ;
}

impl EnvironmentProfile {
    /// What every session's profile is.
    pub open spec fn is_deterministic(self) -> bool {
        &&& self.sender == spec_default_sender()
        &&& self.tx_origin == spec_default_sender()
        &&& self.initial_balance.value() == pow2_256() - 1
        &&& self.gas_limit == u64::MAX
        &&& self.chain_id == DEV_CHAIN_ID
        &&& self.block_number == 1
        &&& self.block_timestamp == 1
        &&& self.code_size_limit is None
        &&& self.memory_limit == MEMORY_LIMIT
        &&& self.ffi
    }

    /// The deterministic profile: default sender, maximal balance and gas ceiling,
    /// development chain id, block one at time one, no code-size ceiling,
    /// 16 MiB of memory, external processes allowed.
    pub fn deterministic() -> (r: EnvironmentProfile)
        ensures
            r.is_deterministic(),
    {
        EnvironmentProfile {
            sender: default_sender(),
            tx_origin: default_sender(),
            initial_balance: Word::max_value(),
            gas_limit: u64::MAX,
            chain_id: DEV_CHAIN_ID,
            block_number: 1,
            block_timestamp: 1,
            code_size_limit: None,
            memory_limit: MEMORY_LIMIT,
            ffi: true,
        }
    }
}

} // verus!
