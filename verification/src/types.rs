//! Data model of the AMM routing / liquidation-swap core.
//!
//! Addresses and assets are opaque identities: equality is the only
//! operation the core performs on them. An asset is either the chain's
//! native asset or a token identified by its contract address.

use vstd::prelude::*;

verus! {

/// An account or contract identity. The core only compares addresses.
#[derive(Clone, Copy, PartialEq, Eq, Structural, Debug)]
pub struct Address(pub u64);

/// An asset identifier: the native asset, or a token contract.
#[derive(Clone, Copy, PartialEq, Eq, Structural, Debug)]
pub enum Asset {
    Native,
    Token(Address),
}

/// Basis-point denominator: 10000 bps = 100%.
pub const BPS_DENOMINATOR: u32 = 10000;

/// Largest swap amount any protocol may be registered with; keeps the
/// output computation `amount_in * (10000 - slippage_bps)` inside `i128`.
pub const MAX_SWAP_AMOUNT: i128 = 17_014_118_346_046_923_173_168_730_371_588_410;

/// Error kinds surfaced by the core. Every failing check aborts its call
/// with exactly one of these and leaves the state untouched.
#[derive(Clone, Copy, PartialEq, Eq, Structural, Debug)]
pub enum AmmError {
    AlreadyInitialized,
    Unauthorized,
    InvalidParameter,
    SwapsPaused,
    ProtocolUnavailable,
    DeadlineExpired,
    AmountOutOfBounds,
    UnsupportedPair,
    SlippageTooHigh,
    InsufficientOutput,
    InvalidAmount,
    BelowLiquidationThreshold,
    NoProtocolAvailable,
    UnknownProtocol,
    NonceReplay,
}

/// Global swap settings, a singleton owned by the admin.
#[derive(Clone, Copy, PartialEq, Eq, Structural, Debug)]
pub struct AmmSettings {
    pub default_slippage_bps: u32,
    pub max_slippage_bps: u32,
    pub swap_enabled: bool,
    pub liquidity_enabled: bool,
    pub auto_swap_threshold: i128,
}

impl AmmSettings {
    /// Invariant of the settings record.
    pub open spec fn valid(self) -> bool {
        self.default_slippage_bps <= self.max_slippage_bps
            && self.max_slippage_bps <= BPS_DENOMINATOR
    }
}

/// A tradable pair supported by a registered protocol, together with the
/// pool that serves it. A requested pair matches only on exact identity.
#[derive(Clone, Copy, PartialEq, Eq, Structural, Debug)]
pub struct TokenPair {
    pub token_in: Asset,
    pub token_out: Asset,
    pub pool_address: Address,
}

/// Configuration of one registered external swap venue.
#[derive(Debug)]
pub struct AmmProtocolConfig {
    pub protocol_address: Address,
    pub protocol_name: u64,
    pub enabled: bool,
    pub fee_tier_bps: u32,
    pub min_swap_amount: i128,
    pub max_swap_amount: i128,
    pub supported_pairs: Vec<TokenPair>,
}

/// The mathematical value of a protocol configuration: the same fields,
/// with the supported pairs as a sequence.
pub struct ProtocolConfigView {
    pub protocol_address: Address,
    pub protocol_name: u64,
    pub enabled: bool,
    pub fee_tier_bps: u32,
    pub min_swap_amount: i128,
    pub max_swap_amount: i128,
    pub supported_pairs: Seq<TokenPair>,
}

impl View for AmmProtocolConfig {
    type V = ProtocolConfigView;

    open spec fn view(&self) -> ProtocolConfigView {
        ProtocolConfigView {
            protocol_address: self.protocol_address,
            protocol_name: self.protocol_name,
            enabled: self.enabled,
            fee_tier_bps: self.fee_tier_bps,
            min_swap_amount: self.min_swap_amount,
            max_swap_amount: self.max_swap_amount,
            supported_pairs: self.supported_pairs@,
        }
    }
}

impl ProtocolConfigView {
    /// Invariant established at registration: consistent swap bounds and
    /// at least one supported pair.
    pub open spec fn valid(self) -> bool {
        0 <= self.min_swap_amount && self.min_swap_amount <= self.max_swap_amount
            && self.max_swap_amount <= MAX_SWAP_AMOUNT && self.supported_pairs.len() > 0
    }

    /// Whether this protocol supports the exact requested pair.
    pub open spec fn supports(self, token_in: Asset, token_out: Asset) -> bool {
        exists|i: int|
            0 <= i < self.supported_pairs.len() && (#[trigger] self.supported_pairs[i]).token_in
                == token_in && self.supported_pairs[i].token_out == token_out
    }
}

/// Parameters of one requested swap; ephemeral, never stored.
#[derive(Clone, Copy, PartialEq, Eq, Structural, Debug)]
pub struct SwapParams {
    pub protocol: Address,
    pub token_in: Asset,
    pub token_out: Asset,
    pub amount_in: i128,
    pub min_amount_out: i128,
    pub slippage_tolerance_bps: u32,
    pub deadline: u64,
}

/// One entry of the append-only swap history.
#[derive(Clone, Copy, PartialEq, Eq, Structural, Debug)]
pub struct SwapRecord {
    pub user: Address,
    pub protocol: Address,
    pub amount_in: i128,
    pub amount_out: i128,
    pub timestamp: u64,
    pub sequence_id: u64,
}

/// A post-swap callback from a registered protocol; ephemeral input to
/// the callback validator.
#[derive(Debug)]
pub struct AmmCallbackData {
    pub nonce: u64,
    pub operation: u64,
    pub user: Address,
    pub expected_amounts: Vec<i128>,
    pub deadline: u64,
}

} // verus!
