//! The settings store's admission rules.
//!
//! The global settings record is created exactly once and replaced only
//! by the stored admin; either way the record must satisfy its
//! invariant: default slippage within the maximum, the maximum within
//! the basis-point scale.

use vstd::prelude::*;

use crate::types::{Address, AmmError, AmmSettings, BPS_DENOMINATOR};

verus! {

/// The outcome of initialization: refused once settings exist, refused
/// for a malformed record, accepted otherwise.
pub open spec fn initialize_result(
    existing: Option<AmmSettings>,
    default_slippage_bps: u32,
    max_slippage_bps: u32,
) -> Result<(), AmmError> {
    if existing is Some {
        Err(AmmError::AlreadyInitialized)
    } else if !(default_slippage_bps <= max_slippage_bps && max_slippage_bps <= BPS_DENOMINATOR) {
        Err(AmmError::InvalidParameter)
    } else {
        Ok(())
    }
}

/// The outcome of an update: only the stored admin may replace the
/// record, and only with a record satisfying the settings invariant.
pub open spec fn update_result(
    admin: Option<Address>,
    caller: Address,
    new_settings: AmmSettings,
) -> Result<(), AmmError> {
    if !(admin matches Some(a) && a == caller) {
        Err(AmmError::Unauthorized)
    } else if !new_settings.valid() {
        Err(AmmError::InvalidParameter)
    } else {
        Ok(())
    }
}

} // verus!
