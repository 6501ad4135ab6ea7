//! The fixed values of a deployment.

use vstd::prelude::*;
use crate::keys::Key;

verus! {

/// Label that enters the derivation of a record's address: `deal_state` in ASCII.
pub const DEAL_STATE_SEED: [u8; 10] = [100, 101, 97, 108, 95, 115, 116, 97, 116, 101];

/// Stake of the holder asset that waives the flat service fee.
pub const HOLDER_MODE_AMOUNT: u64 = 10000000000000;

/// The asset in which a deal must be made for the fee waiver to apply.
pub const SERVICE_FEE_MINT: [u8; 32] = [
    74, 165, 229, 30, 51, 175, 28, 98, 172, 29, 92, 92, 196, 96, 35, 176,
    212, 96, 244, 170, 146, 129, 60, 49, 163, 238, 27, 149, 203, 246, 150, 188,
];

/// The recipient of service fees and of the base deposit of closed custody accounts.
pub const SERVICE_FEE_OWNER: [u8; 32] = [
    165, 113, 20, 118, 140, 7, 225, 182, 218, 29, 224, 172, 180, 215, 83, 156,
    236, 221, 152, 206, 246, 73, 243, 33, 50, 198, 119, 129, 34, 45, 41, 87,
];

/// The privileged service identity.
pub const SERVICE_ACCOUNT_ADDRESS: [u8; 32] = [
    165, 113, 20, 118, 140, 7, 225, 182, 218, 29, 224, 172, 180, 215, 83, 156,
    236, 221, 152, 206, 246, 73, 243, 33, 50, 198, 119, 129, 34, 45, 41, 87,
];

/// The asset that is staked in holder mode.
pub const HOLDER_MINT: [u8; 32] = [
    75, 58, 1, 161, 193, 151, 123, 199, 251, 218, 109, 211, 191, 102, 239, 49,
    49, 64, 234, 36, 172, 72, 146, 128, 119, 142, 90, 145, 127, 121, 108, 36,
];

/// The configuration that every transition is given.
#[derive(Clone, Copy, Debug, PartialEq, Eq)]
pub struct Config {
    pub service_fee_mint: Key,
    pub service_fee_owner: Key,
    pub service_account_address: Key,
    pub holder_mint: Key,
    pub holder_mode_amount: u64,
}

impl Config {
    /// The configuration made of this module's constants.
    pub fn deployed() -> (c: Config)
        ensures
            c.service_fee_mint@ == SERVICE_FEE_MINT@,
            c.service_fee_owner@ == SERVICE_FEE_OWNER@,
            c.service_account_address@ == SERVICE_ACCOUNT_ADDRESS@,
            c.holder_mint@ == HOLDER_MINT@,
            c.holder_mode_amount == HOLDER_MODE_AMOUNT,
    {
        Config {
            service_fee_mint: Key::new(SERVICE_FEE_MINT),
            service_fee_owner: Key::new(SERVICE_FEE_OWNER),
            service_account_address: Key::new(SERVICE_ACCOUNT_ADDRESS),
            holder_mint: Key::new(HOLDER_MINT),
            holder_mode_amount: HOLDER_MODE_AMOUNT,
        }
    }
}

} // verus!
