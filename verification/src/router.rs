//! The swap router's state machine, as a mathematical function.
//!
//! `swap_result` says exactly which error a swap request draws, in the
//! order the checks run, and what output a passing request earns.
//! `auto_swap_result` puts the liquidation entry point's own gates in
//! front and fixes its delegation policy: default slippage, the most
//! permissive minimum output that still demands a positive result, and a
//! fresh forward-looking deadline.

use vstd::prelude::*;

use crate::math::swap_output;
use crate::registry::{first_supporting, lookup_spec};
use crate::types::{Address, AmmError, AmmSettings, Asset, ProtocolConfigView, SwapParams};

verus! {

/// How far past the current time the liquidation entry point sets the
/// deadline of the swap it delegates.
pub const AUTO_SWAP_DEADLINE_WINDOW: u64 = 3600;

/// The outcome of one swap request: the first failing check names the
/// error; a request passing every check earns the slippage-discounted
/// output.
pub open spec fn swap_result(
    settings: AmmSettings,
    protocol: Option<ProtocolConfigView>,
    params: SwapParams,
    now: u64,
) -> Result<i128, AmmError> {
    if !settings.swap_enabled {
        Err(AmmError::SwapsPaused)
    } else {
        match protocol {
            None => Err(AmmError::ProtocolUnavailable),
            Some(p) => if !p.enabled {
                Err(AmmError::ProtocolUnavailable)
            } else if params.deadline < now {
                Err(AmmError::DeadlineExpired)
            } else if params.amount_in < p.min_swap_amount || params.amount_in
                > p.max_swap_amount {
                Err(AmmError::AmountOutOfBounds)
            } else if !p.supports(params.token_in, params.token_out) {
                Err(AmmError::UnsupportedPair)
            } else if params.slippage_tolerance_bps > settings.max_slippage_bps {
                Err(AmmError::SlippageTooHigh)
            } else if swap_output(params.amount_in as int, params.slippage_tolerance_bps as int)
                < params.min_amount_out {
                Err(AmmError::InsufficientOutput)
            } else {
                Ok(swap_output(params.amount_in as int, params.slippage_tolerance_bps as int) as i128)
            },
        }
    }
}

/// The deadline the liquidation entry point hands the router: a fixed
/// window past the current time, saturating at the largest timestamp.
pub open spec fn auto_deadline(now: u64) -> u64 {
    if now <= u64::MAX - AUTO_SWAP_DEADLINE_WINDOW {
        (now + AUTO_SWAP_DEADLINE_WINDOW) as u64
    } else {
        u64::MAX
    }
}

/// The swap request the liquidation entry point delegates: the resolved
/// protocol, native collateral in, default slippage, and any strictly
/// positive output accepted.
pub open spec fn auto_swap_params(
    settings: AmmSettings,
    protocol: Address,
    token_out: Asset,
    amount: i128,
    now: u64,
) -> SwapParams {
    SwapParams {
        protocol,
        token_in: Asset::Native,
        token_out,
        amount_in: amount,
        min_amount_out: 1,
        slippage_tolerance_bps: settings.default_slippage_bps,
        deadline: auto_deadline(now),
    }
}

/// The outcome of the liquidation entry point: its own gates — positive
/// amount, the liquidation threshold, a protocol able to serve the pair
/// — and then the router's verdict on the delegated request.
pub open spec fn auto_swap_result(
    settings: AmmSettings,
    protocols: Seq<ProtocolConfigView>,
    token_out: Asset,
    amount: i128,
    now: u64,
) -> Result<i128, AmmError> {
    if amount <= 0 {
        Err(AmmError::InvalidAmount)
    } else if amount < settings.auto_swap_threshold {
        Err(AmmError::BelowLiquidationThreshold)
    } else {
        match first_supporting(protocols, Asset::Native, token_out) {
            None => Err(AmmError::NoProtocolAvailable),
            Some(addr) => swap_result(
                settings,
                lookup_spec(protocols, addr),
                auto_swap_params(settings, addr, token_out, amount, now),
                now,
            ),
        }
    }
}

} // verus!
