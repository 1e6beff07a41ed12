//! Solidity vulnerability detectors with verified contracts.

pub mod ast;
pub mod bridge_token_minting;
pub mod delegatecall_user_controlled;
pub mod detector;
pub mod external;
pub mod text;
pub mod timestamp;
